//! Native operations and results: the tagged unions with one case per
//! opcode that the body codec produces and consumes, plus the key-attribute
//! model and the provider descriptor.

use vstd::prelude::*;
use crate::requests::{Opcode, ProviderId, AuthType};

verus! {

/// What kind of key an operation concerns.
#[derive(Clone, Copy, PartialEq, Eq, Structural, Debug)]
pub enum KeyType {
    RsaKeypair,
    RsaPublicKey,
    EccKeypair,
    Aes,
}

/// The algorithm a key is bound to at creation.
#[derive(Clone, Copy, PartialEq, Eq, Structural, Debug)]
pub enum KeyAlgorithm {
    RsaPkcs1v15Sign,
    EcdsaSha256,
    AeadChacha20Poly1305,
    HashSha256,
}

/// Usages the application permits for a key.
#[derive(Clone, Copy, PartialEq, Eq, Structural, Debug)]
pub struct UsageFlags {
    pub sign_hash: bool,
    pub verify_hash: bool,
    pub export: bool,
}

/// Attributes requested for a key at generation or import time. The service
/// never reinterprets them except to reject unsupported combinations at the
/// provider.
#[derive(Clone, Copy, PartialEq, Eq, Structural, Debug)]
pub struct KeyAttributes {
    pub key_type: KeyType,
    pub algorithm: KeyAlgorithm,
    pub key_size: u32,
    pub usage: UsageFlags,
}

/// Identity metadata every provider carries; the core provider's
/// `list_providers` returns one of these per registered provider.
#[derive(Clone, Debug)]
pub struct ProviderInfo {
    /// The provider's assigned UUID, as its sixteen raw bytes.
    pub uuid: Vec<u8>,
    pub description: String,
    pub vendor: String,
    pub version_maj: u8,
    pub version_min: u8,
    pub version_rev: u8,
    pub id: ProviderId,
}

/// Empty operation payload of `Ping`.
#[derive(Clone, Copy, PartialEq, Eq, Structural, Debug)]
pub struct OpPing {}

/// Result of `Ping`: the highest protocol version the service supports.
#[derive(Clone, Copy, PartialEq, Eq, Structural, Debug)]
pub struct ResultPing {
    pub supp_version_maj: u8,
    pub supp_version_min: u8,
}

/// A decoded request body: one case per opcode, carrying the payload the
/// matching provider method needs.
#[derive(Clone, Debug)]
pub enum NativeOperation {
    Ping(OpPing),
    ListProviders,
    ListOpcodes,
    ListAuthenticators,
    ListKeys,
    PsaGenerateKey { key_name: String, attributes: KeyAttributes },
    PsaImportKey { key_name: String, attributes: KeyAttributes, data: Vec<u8> },
    PsaExportPublicKey { key_name: String },
    PsaExportKey { key_name: String },
    PsaDestroyKey { key_name: String },
    PsaSignHash { key_name: String, hash: Vec<u8> },
    PsaVerifyHash { key_name: String, hash: Vec<u8>, signature: Vec<u8> },
    PsaAsymmetricEncrypt { key_name: String, plaintext: Vec<u8> },
    PsaAsymmetricDecrypt { key_name: String, ciphertext: Vec<u8> },
    PsaAeadEncrypt { key_name: String, nonce: Vec<u8>, plaintext: Vec<u8> },
    PsaAeadDecrypt { key_name: String, nonce: Vec<u8>, ciphertext: Vec<u8> },
    PsaRawKeyAgreement { private_key_name: String, peer_key: Vec<u8> },
    PsaHashCompute { input: Vec<u8> },
    PsaHashCompare { input: Vec<u8>, hash: Vec<u8> },
    PsaGenerateRandom { size: u32 },
}

/// An operation result before encoding: one case per opcode.
#[derive(Clone, Debug)]
pub enum NativeResult {
    Ping(ResultPing),
    ListProviders { providers: Vec<ProviderInfo> },
    ListOpcodes { opcodes: Vec<Opcode> },
    ListAuthenticators { authenticators: Vec<AuthType> },
    ListKeys { keys: Vec<String> },
    PsaGenerateKey,
    PsaImportKey,
    PsaExportPublicKey { data: Vec<u8> },
    PsaExportKey { data: Vec<u8> },
    PsaDestroyKey,
    PsaSignHash { signature: Vec<u8> },
    PsaVerifyHash,
    PsaAsymmetricEncrypt { ciphertext: Vec<u8> },
    PsaAsymmetricDecrypt { plaintext: Vec<u8> },
    PsaAeadEncrypt { ciphertext: Vec<u8> },
    PsaAeadDecrypt { plaintext: Vec<u8> },
    PsaRawKeyAgreement { shared_secret: Vec<u8> },
    PsaHashCompute { hash: Vec<u8> },
    PsaHashCompare,
    PsaGenerateRandom { random_bytes: Vec<u8> },
}

/// Mathematical view of a [`ProviderInfo`].
pub struct ProviderInfoView {
    pub uuid: Seq<u8>,
    pub description: Seq<char>,
    pub vendor: Seq<char>,
    pub version_maj: u8,
    pub version_min: u8,
    pub version_rev: u8,
    pub id: ProviderId,
}

impl View for ProviderInfo {
    type V = ProviderInfoView;

    open spec fn view(&self) -> ProviderInfoView {
        ProviderInfoView {
            uuid: self.uuid@,
            description: self.description@,
            vendor: self.vendor@,
            version_maj: self.version_maj,
            version_min: self.version_min,
            version_rev: self.version_rev,
            id: self.id,
        }
    }
}

/// Mathematical view of a [`NativeOperation`]: the same cases over sequences.
pub enum OpView {
    Ping,
    ListProviders,
    ListOpcodes,
    ListAuthenticators,
    ListKeys,
    PsaGenerateKey { key_name: Seq<char>, attributes: KeyAttributes },
    PsaImportKey { key_name: Seq<char>, attributes: KeyAttributes, data: Seq<u8> },
    PsaExportPublicKey { key_name: Seq<char> },
    PsaExportKey { key_name: Seq<char> },
    PsaDestroyKey { key_name: Seq<char> },
    PsaSignHash { key_name: Seq<char>, hash: Seq<u8> },
    PsaVerifyHash { key_name: Seq<char>, hash: Seq<u8>, signature: Seq<u8> },
    PsaAsymmetricEncrypt { key_name: Seq<char>, plaintext: Seq<u8> },
    PsaAsymmetricDecrypt { key_name: Seq<char>, ciphertext: Seq<u8> },
    PsaAeadEncrypt { key_name: Seq<char>, nonce: Seq<u8>, plaintext: Seq<u8> },
    PsaAeadDecrypt { key_name: Seq<char>, nonce: Seq<u8>, ciphertext: Seq<u8> },
    PsaRawKeyAgreement { private_key_name: Seq<char>, peer_key: Seq<u8> },
    PsaHashCompute { input: Seq<u8> },
    PsaHashCompare { input: Seq<u8>, hash: Seq<u8> },
    PsaGenerateRandom { size: u32 },
}

impl View for NativeOperation {
    type V = OpView;

    open spec fn view(&self) -> OpView {
        match self {
            NativeOperation::Ping(..) => OpView::Ping,
            NativeOperation::ListProviders => OpView::ListProviders,
            NativeOperation::ListOpcodes => OpView::ListOpcodes,
            NativeOperation::ListAuthenticators => OpView::ListAuthenticators,
            NativeOperation::ListKeys => OpView::ListKeys,
            NativeOperation::PsaGenerateKey { key_name, attributes } => OpView::PsaGenerateKey {
                key_name: key_name@,
                attributes: *attributes,
            },
            NativeOperation::PsaImportKey { key_name, attributes, data } => OpView::PsaImportKey {
                key_name: key_name@,
                attributes: *attributes,
                data: data@,
            },
            NativeOperation::PsaExportPublicKey { key_name } => OpView::PsaExportPublicKey {
                key_name: key_name@,
            },
            NativeOperation::PsaExportKey { key_name } => OpView::PsaExportKey {
                key_name: key_name@,
            },
            NativeOperation::PsaDestroyKey { key_name } => OpView::PsaDestroyKey {
                key_name: key_name@,
            },
            NativeOperation::PsaSignHash { key_name, hash } => OpView::PsaSignHash {
                key_name: key_name@,
                hash: hash@,
            },
            NativeOperation::PsaVerifyHash { key_name, hash, signature } => OpView::PsaVerifyHash {
                key_name: key_name@,
                hash: hash@,
                signature: signature@,
            },
            NativeOperation::PsaAsymmetricEncrypt { key_name, plaintext } => OpView::PsaAsymmetricEncrypt {
                key_name: key_name@,
                plaintext: plaintext@,
            },
            NativeOperation::PsaAsymmetricDecrypt { key_name, ciphertext } => OpView::PsaAsymmetricDecrypt {
                key_name: key_name@,
                ciphertext: ciphertext@,
            },
            NativeOperation::PsaAeadEncrypt { key_name, nonce, plaintext } => OpView::PsaAeadEncrypt {
                key_name: key_name@,
                nonce: nonce@,
                plaintext: plaintext@,
            },
            NativeOperation::PsaAeadDecrypt { key_name, nonce, ciphertext } => OpView::PsaAeadDecrypt {
                key_name: key_name@,
                nonce: nonce@,
                ciphertext: ciphertext@,
            },
            NativeOperation::PsaRawKeyAgreement { private_key_name, peer_key } => OpView::PsaRawKeyAgreement {
                private_key_name: private_key_name@,
                peer_key: peer_key@,
            },
            NativeOperation::PsaHashCompute { input } => OpView::PsaHashCompute { input: input@ },
            NativeOperation::PsaHashCompare { input, hash } => OpView::PsaHashCompare {
                input: input@,
                hash: hash@,
            },
            NativeOperation::PsaGenerateRandom { size } => OpView::PsaGenerateRandom {
                size: *size,
            },
        }
    }
}

/// Mathematical view of a [`NativeResult`].
pub enum ResultView {
    Ping { supp_version_maj: u8, supp_version_min: u8 },
    ListProviders { providers: Seq<ProviderInfoView> },
    ListOpcodes { opcodes: Seq<Opcode> },
    ListAuthenticators { authenticators: Seq<AuthType> },
    ListKeys { keys: Seq<Seq<char>> },
    PsaGenerateKey,
    PsaImportKey,
    PsaExportPublicKey { data: Seq<u8> },
    PsaExportKey { data: Seq<u8> },
    PsaDestroyKey,
    PsaSignHash { signature: Seq<u8> },
    PsaVerifyHash,
    PsaAsymmetricEncrypt { ciphertext: Seq<u8> },
    PsaAsymmetricDecrypt { plaintext: Seq<u8> },
    PsaAeadEncrypt { ciphertext: Seq<u8> },
    PsaAeadDecrypt { plaintext: Seq<u8> },
    PsaRawKeyAgreement { shared_secret: Seq<u8> },
    PsaHashCompute { hash: Seq<u8> },
    PsaHashCompare,
    PsaGenerateRandom { random_bytes: Seq<u8> },
}

impl View for NativeResult {
    type V = ResultView;

    open spec fn view(&self) -> ResultView {
        match self {
            NativeResult::Ping(p) => ResultView::Ping {
                supp_version_maj: p.supp_version_maj,
                supp_version_min: p.supp_version_min,
            },
            NativeResult::ListProviders { providers } => ResultView::ListProviders {
                providers: providers@.map_values(|p: ProviderInfo| p@),
            },
            NativeResult::ListOpcodes { opcodes } => ResultView::ListOpcodes { opcodes: opcodes@ },
            NativeResult::ListAuthenticators { authenticators } => ResultView::ListAuthenticators {
                authenticators: authenticators@,
            },
            NativeResult::ListKeys { keys } => ResultView::ListKeys {
                keys: keys@.map_values(|k: String| k@),
            },
            NativeResult::PsaGenerateKey => ResultView::PsaGenerateKey,
            NativeResult::PsaImportKey => ResultView::PsaImportKey,
            NativeResult::PsaExportPublicKey { data } => ResultView::PsaExportPublicKey {
                data: data@,
            },
            NativeResult::PsaExportKey { data } => ResultView::PsaExportKey { data: data@ },
            NativeResult::PsaDestroyKey => ResultView::PsaDestroyKey,
            NativeResult::PsaSignHash { signature } => ResultView::PsaSignHash {
                signature: signature@,
            },
            NativeResult::PsaVerifyHash => ResultView::PsaVerifyHash,
            NativeResult::PsaAsymmetricEncrypt { ciphertext } => ResultView::PsaAsymmetricEncrypt {
                ciphertext: ciphertext@,
            },
            NativeResult::PsaAsymmetricDecrypt { plaintext } => ResultView::PsaAsymmetricDecrypt {
                plaintext: plaintext@,
            },
            NativeResult::PsaAeadEncrypt { ciphertext } => ResultView::PsaAeadEncrypt {
                ciphertext: ciphertext@,
            },
            NativeResult::PsaAeadDecrypt { plaintext } => ResultView::PsaAeadDecrypt {
                plaintext: plaintext@,
            },
            NativeResult::PsaRawKeyAgreement { shared_secret } => ResultView::PsaRawKeyAgreement {
                shared_secret: shared_secret@,
            },
            NativeResult::PsaHashCompute { hash } => ResultView::PsaHashCompute { hash: hash@ },
            NativeResult::PsaHashCompare => ResultView::PsaHashCompare,
            NativeResult::PsaGenerateRandom { random_bytes } => ResultView::PsaGenerateRandom {
                random_bytes: random_bytes@,
            },
        }
    }
}

/// The opcode an operation view is tagged with; agrees with
/// [`spec_opcode_of_operation`] on views of executable operations.
pub open spec fn op_view_opcode(v: OpView) -> Opcode {
    match v {
        OpView::Ping => Opcode::Ping,
        OpView::ListProviders => Opcode::ListProviders,
        OpView::ListOpcodes => Opcode::ListOpcodes,
        OpView::ListAuthenticators => Opcode::ListAuthenticators,
        OpView::ListKeys => Opcode::ListKeys,
        OpView::PsaGenerateKey { .. } => Opcode::PsaGenerateKey,
        OpView::PsaImportKey { .. } => Opcode::PsaImportKey,
        OpView::PsaExportPublicKey { .. } => Opcode::PsaExportPublicKey,
        OpView::PsaExportKey { .. } => Opcode::PsaExportKey,
        OpView::PsaDestroyKey { .. } => Opcode::PsaDestroyKey,
        OpView::PsaSignHash { .. } => Opcode::PsaSignHash,
        OpView::PsaVerifyHash { .. } => Opcode::PsaVerifyHash,
        OpView::PsaAsymmetricEncrypt { .. } => Opcode::PsaAsymmetricEncrypt,
        OpView::PsaAsymmetricDecrypt { .. } => Opcode::PsaAsymmetricDecrypt,
        OpView::PsaAeadEncrypt { .. } => Opcode::PsaAeadEncrypt,
        OpView::PsaAeadDecrypt { .. } => Opcode::PsaAeadDecrypt,
        OpView::PsaRawKeyAgreement { .. } => Opcode::PsaRawKeyAgreement,
        OpView::PsaHashCompute { .. } => Opcode::PsaHashCompute,
        OpView::PsaHashCompare { .. } => Opcode::PsaHashCompare,
        OpView::PsaGenerateRandom { .. } => Opcode::PsaGenerateRandom,
    }
}

/// The opcode a result view is tagged with; agrees with
/// [`spec_opcode_of_result`] on views of executable results.
pub open spec fn result_view_opcode(v: ResultView) -> Opcode {
    match v {
        ResultView::Ping { .. } => Opcode::Ping,
        ResultView::ListProviders { .. } => Opcode::ListProviders,
        ResultView::ListOpcodes { .. } => Opcode::ListOpcodes,
        ResultView::ListAuthenticators { .. } => Opcode::ListAuthenticators,
        ResultView::ListKeys { .. } => Opcode::ListKeys,
        ResultView::PsaGenerateKey => Opcode::PsaGenerateKey,
        ResultView::PsaImportKey => Opcode::PsaImportKey,
        ResultView::PsaExportPublicKey { .. } => Opcode::PsaExportPublicKey,
        ResultView::PsaExportKey { .. } => Opcode::PsaExportKey,
        ResultView::PsaDestroyKey => Opcode::PsaDestroyKey,
        ResultView::PsaSignHash { .. } => Opcode::PsaSignHash,
        ResultView::PsaVerifyHash => Opcode::PsaVerifyHash,
        ResultView::PsaAsymmetricEncrypt { .. } => Opcode::PsaAsymmetricEncrypt,
        ResultView::PsaAsymmetricDecrypt { .. } => Opcode::PsaAsymmetricDecrypt,
        ResultView::PsaAeadEncrypt { .. } => Opcode::PsaAeadEncrypt,
        ResultView::PsaAeadDecrypt { .. } => Opcode::PsaAeadDecrypt,
        ResultView::PsaRawKeyAgreement { .. } => Opcode::PsaRawKeyAgreement,
        ResultView::PsaHashCompute { .. } => Opcode::PsaHashCompute,
        ResultView::PsaHashCompare => Opcode::PsaHashCompare,
        ResultView::PsaGenerateRandom { .. } => Opcode::PsaGenerateRandom,
    }
}

/// The opcode of an operation equals the opcode of its view.
pub proof fn lemma_opcode_of_view(op: NativeOperation)
    ensures
        op_view_opcode(op@) == spec_opcode_of_operation(op),
{
}

/// The opcode of a result equals the opcode of its view.
pub proof fn lemma_result_opcode_of_view(res: NativeResult)
    ensures
        result_view_opcode(res@) == spec_opcode_of_result(res),
{
}

/// The opcode an operation is tagged with.
pub open spec fn spec_opcode_of_operation(op: NativeOperation) -> Opcode {
    match op {
        NativeOperation::Ping(..) => Opcode::Ping,
        NativeOperation::ListProviders => Opcode::ListProviders,
        NativeOperation::ListOpcodes => Opcode::ListOpcodes,
        NativeOperation::ListAuthenticators => Opcode::ListAuthenticators,
        NativeOperation::ListKeys => Opcode::ListKeys,
        NativeOperation::PsaGenerateKey { .. } => Opcode::PsaGenerateKey,
        NativeOperation::PsaImportKey { .. } => Opcode::PsaImportKey,
        NativeOperation::PsaExportPublicKey { .. } => Opcode::PsaExportPublicKey,
        NativeOperation::PsaExportKey { .. } => Opcode::PsaExportKey,
        NativeOperation::PsaDestroyKey { .. } => Opcode::PsaDestroyKey,
        NativeOperation::PsaSignHash { .. } => Opcode::PsaSignHash,
        NativeOperation::PsaVerifyHash { .. } => Opcode::PsaVerifyHash,
        NativeOperation::PsaAsymmetricEncrypt { .. } => Opcode::PsaAsymmetricEncrypt,
        NativeOperation::PsaAsymmetricDecrypt { .. } => Opcode::PsaAsymmetricDecrypt,
        NativeOperation::PsaAeadEncrypt { .. } => Opcode::PsaAeadEncrypt,
        NativeOperation::PsaAeadDecrypt { .. } => Opcode::PsaAeadDecrypt,
        NativeOperation::PsaRawKeyAgreement { .. } => Opcode::PsaRawKeyAgreement,
        NativeOperation::PsaHashCompute { .. } => Opcode::PsaHashCompute,
        NativeOperation::PsaHashCompare { .. } => Opcode::PsaHashCompare,
        NativeOperation::PsaGenerateRandom { .. } => Opcode::PsaGenerateRandom,
    }
}

/// Executable twin of [`spec_opcode_of_operation`].
pub fn opcode_of_operation(op: &NativeOperation) -> (r: Opcode)
    ensures
        r == spec_opcode_of_operation(*op),
{
    match op {
        NativeOperation::Ping(..) => Opcode::Ping,
        NativeOperation::ListProviders => Opcode::ListProviders,
        NativeOperation::ListOpcodes => Opcode::ListOpcodes,
        NativeOperation::ListAuthenticators => Opcode::ListAuthenticators,
        NativeOperation::ListKeys => Opcode::ListKeys,
        NativeOperation::PsaGenerateKey { .. } => Opcode::PsaGenerateKey,
        NativeOperation::PsaImportKey { .. } => Opcode::PsaImportKey,
        NativeOperation::PsaExportPublicKey { .. } => Opcode::PsaExportPublicKey,
        NativeOperation::PsaExportKey { .. } => Opcode::PsaExportKey,
        NativeOperation::PsaDestroyKey { .. } => Opcode::PsaDestroyKey,
        NativeOperation::PsaSignHash { .. } => Opcode::PsaSignHash,
        NativeOperation::PsaVerifyHash { .. } => Opcode::PsaVerifyHash,
        NativeOperation::PsaAsymmetricEncrypt { .. } => Opcode::PsaAsymmetricEncrypt,
        NativeOperation::PsaAsymmetricDecrypt { .. } => Opcode::PsaAsymmetricDecrypt,
        NativeOperation::PsaAeadEncrypt { .. } => Opcode::PsaAeadEncrypt,
        NativeOperation::PsaAeadDecrypt { .. } => Opcode::PsaAeadDecrypt,
        NativeOperation::PsaRawKeyAgreement { .. } => Opcode::PsaRawKeyAgreement,
        NativeOperation::PsaHashCompute { .. } => Opcode::PsaHashCompute,
        NativeOperation::PsaHashCompare { .. } => Opcode::PsaHashCompare,
        NativeOperation::PsaGenerateRandom { .. } => Opcode::PsaGenerateRandom,
    }
}

/// The opcode a result is tagged with.
pub open spec fn spec_opcode_of_result(res: NativeResult) -> Opcode {
    match res {
        NativeResult::Ping(..) => Opcode::Ping,
        NativeResult::ListProviders { .. } => Opcode::ListProviders,
        NativeResult::ListOpcodes { .. } => Opcode::ListOpcodes,
        NativeResult::ListAuthenticators { .. } => Opcode::ListAuthenticators,
        NativeResult::ListKeys { .. } => Opcode::ListKeys,
        NativeResult::PsaGenerateKey => Opcode::PsaGenerateKey,
        NativeResult::PsaImportKey => Opcode::PsaImportKey,
        NativeResult::PsaExportPublicKey { .. } => Opcode::PsaExportPublicKey,
        NativeResult::PsaExportKey { .. } => Opcode::PsaExportKey,
        NativeResult::PsaDestroyKey => Opcode::PsaDestroyKey,
        NativeResult::PsaSignHash { .. } => Opcode::PsaSignHash,
        NativeResult::PsaVerifyHash => Opcode::PsaVerifyHash,
        NativeResult::PsaAsymmetricEncrypt { .. } => Opcode::PsaAsymmetricEncrypt,
        NativeResult::PsaAsymmetricDecrypt { .. } => Opcode::PsaAsymmetricDecrypt,
        NativeResult::PsaAeadEncrypt { .. } => Opcode::PsaAeadEncrypt,
        NativeResult::PsaAeadDecrypt { .. } => Opcode::PsaAeadDecrypt,
        NativeResult::PsaRawKeyAgreement { .. } => Opcode::PsaRawKeyAgreement,
        NativeResult::PsaHashCompute { .. } => Opcode::PsaHashCompute,
        NativeResult::PsaHashCompare => Opcode::PsaHashCompare,
        NativeResult::PsaGenerateRandom { .. } => Opcode::PsaGenerateRandom,
    }
}

} // verus!
