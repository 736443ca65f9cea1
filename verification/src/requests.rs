//! Request and response frames: opcodes, provider ids, body encodings,
//! response statuses, and the request header that the front end hands to the
//! dispatcher after parsing a wire frame.

use vstd::prelude::*;

verus! {

/// Identifier of every operation the service supports, carried in the
/// request header. Core opcodes are administrative and only valid on the
/// core provider; the others are cryptographic and only valid on non-core
/// providers.
#[derive(Clone, Copy, PartialEq, Eq, Structural, Debug)]
pub enum Opcode {
    Ping,
    ListProviders,
    ListOpcodes,
    ListAuthenticators,
    ListKeys,
    PsaGenerateKey,
    PsaImportKey,
    PsaExportPublicKey,
    PsaExportKey,
    PsaDestroyKey,
    PsaSignHash,
    PsaVerifyHash,
    PsaAsymmetricEncrypt,
    PsaAsymmetricDecrypt,
    PsaAeadEncrypt,
    PsaAeadDecrypt,
    PsaRawKeyAgreement,
    PsaHashCompute,
    PsaHashCompare,
    PsaGenerateRandom,
}

/// Closed enumeration of the providers of this process.
#[derive(Clone, Copy, PartialEq, Eq, Structural, Debug)]
pub enum ProviderId {
    Core,
    Pkcs11,
}

/// Body encodings a handler can accept for requests (content type) and
/// produce for responses (accept type).
#[derive(Clone, Copy, PartialEq, Eq, Structural, Debug)]
pub enum BodyType {
    /// The canonical serialization implemented by [`crate::codec`].
    Canonical,
    /// A raw pass-through encoding; no handler of this crate accepts it.
    Raw,
}

/// How the client authenticated, as recorded in the header. The
/// authenticator itself is an external collaborator: the dispatcher only
/// receives its outcome as an optional application name.
#[derive(Clone, Copy, PartialEq, Eq, Structural, Debug)]
pub enum AuthType {
    NoAuth,
    Direct,
}

/// Response statuses: a closed taxonomy, not a type hierarchy. Every
/// failure anywhere in the dispatch pipeline is converted into one of these
/// and carried on the response header.
#[derive(Clone, Copy, PartialEq, Eq, Structural, Debug)]
pub enum ResponseStatus {
    Success,
    WrongProviderId,
    ContentTypeNotSupported,
    AcceptTypeNotSupported,
    ProviderNotRegistered,
    DeserializingBodyFailed,
    SerializingBodyFailed,
    NotAuthenticated,
    UnsupportedOperation,
    KeyAlreadyExists,
    KeyInfoManagerError,
    PsaErrorNotSupported,
    PsaErrorDoesNotExist,
    PsaErrorInvalidArgument,
    PsaErrorDataCorrupt,
    PsaErrorInvalidSignature,
    PsaErrorCommunicationFailure,
    PsaErrorHardwareFailure,
    PsaErrorGenericError,
}

/// Name of the client application, established by the authenticator before
/// dispatch. Keys are namespaced by it.
#[derive(Clone, Debug)]
pub struct ApplicationName {
    pub name: String,
}

impl View for ApplicationName {
    type V = Seq<char>;

    open spec fn view(&self) -> Seq<char> {
        self.name@
    }
}

impl ApplicationName {
    pub fn new(name: String) -> (r: ApplicationName)
        ensures
            r@ == name@,
    {
        ApplicationName { name }
    }
}

/// Header of a request frame, as decoded by the front end. The body is
/// carried separately as an opaque byte string.
#[derive(Clone, Copy, PartialEq, Eq, Structural, Debug)]
pub struct RequestHeader {
    pub version_maj: u8,
    pub version_min: u8,
    pub provider: ProviderId,
    pub session: u64,
    pub content_type: BodyType,
    pub accept_type: BodyType,
    pub auth_type: AuthType,
    pub opcode: Opcode,
}

/// A full request: header plus opaque body.
#[derive(Clone, Debug)]
pub struct Request {
    pub header: RequestHeader,
    pub body: Vec<u8>,
}

/// A full response: the request header echoed back, a status, and an opaque
/// body (empty unless the status is `Success`).
#[derive(Clone, Debug)]
pub struct Response {
    pub header: RequestHeader,
    pub status: ResponseStatus,
    pub body: Vec<u8>,
}

impl Response {
    /// Shell of a response for a given request: the header echoed, the given
    /// status, and an empty body.
    pub fn from_request_header(header: RequestHeader, status: ResponseStatus) -> (r: Response)
        ensures
            r.header == header,
            r.status == status,
            r.body@ == Seq::<u8>::empty(),
    {
        Response { header, status, body: Vec::new() }
    }
}

/// Whether an opcode is administrative: valid only on the core provider.
pub open spec fn spec_is_core_opcode(op: Opcode) -> bool {
    op == Opcode::Ping || op == Opcode::ListProviders || op == Opcode::ListOpcodes
        || op == Opcode::ListAuthenticators
}

/// Executable twin of [`spec_is_core_opcode`].
pub fn is_core_opcode(op: Opcode) -> (r: bool)
    ensures
        r == spec_is_core_opcode(op),
{
    match op {
        Opcode::Ping => true,
        Opcode::ListProviders => true,
        Opcode::ListOpcodes => true,
        Opcode::ListAuthenticators => true,
        _ => false,
    }
}

/// Whether the back-end handler refuses to run an opcode without an
/// authenticated application name. This covers every tenant-scoped opcode
/// and also the hash operations, which discard the name after checking it is
/// present, for uniformity with tenant operations.
pub open spec fn spec_opcode_requires_app(op: Opcode) -> bool {
    !(op == Opcode::Ping || op == Opcode::ListProviders || op == Opcode::ListOpcodes
        || op == Opcode::ListAuthenticators || op == Opcode::PsaGenerateRandom)
}

/// Executable twin of [`spec_opcode_requires_app`].
pub fn opcode_requires_app(op: Opcode) -> (r: bool)
    ensures
        r == spec_opcode_requires_app(op),
{
    match op {
        Opcode::Ping => false,
        Opcode::ListProviders => false,
        Opcode::ListOpcodes => false,
        Opcode::ListAuthenticators => false,
        Opcode::PsaGenerateRandom => false,
        _ => true,
    }
}

/// Every core opcode requires no application name: administrative
/// operations are tenant-independent.
pub proof fn lemma_core_opcodes_need_no_app(op: Opcode)
    ensures
        spec_is_core_opcode(op) ==> !spec_opcode_requires_app(op),
{
}

} // verus!
