//! Trusted boundary to the outside world of the PKCS#11 provider: the
//! random-number generator and the token library. Every function here wraps
//! one outside call; Verus believes the stated contracts without reading the
//! bodies. The token is a physical device whose answers depend on its own
//! state, so the wrappers promise nothing about the values that come back:
//! the verified callers state what holds whatever the token answered.

use vstd::prelude::*;
use pkcs11::types::{CK_ATTRIBUTE, CK_MECHANISM, CKM_RSA_PKCS_KEY_PAIR_GEN, CKM_RSA_PKCS};

verus! {

/// A uniformly random 32-bit value. Relies on `rand::random`; nothing can
/// be promised of the result.
#[verifier::external_body]
pub fn random_u32() -> u32 {
    rand::random::<u32>()
}

#[verifier::external_type_specification]
#[verifier::external_body]
/// Declares the token library context so that it can stand in fields and
/// signatures; Verus sees nothing inside a value of it.
pub struct ExCtx(pkcs11::Ctx);

/// One attribute of a token object template, as plain values. The tag
/// carries the standard PKCS#11 attribute-type value; the trusted wrappers
/// turn each entry into the library's attribute record one for one.
pub enum AttrValue {
    Bytes(Vec<u8>),
    Ulong(u64),
    Bool(bool),
}

/// Mathematical view of an [`AttrValue`].
pub enum AttrValueView {
    Bytes(Seq<u8>),
    Ulong(u64),
    Bool(bool),
}

impl View for AttrValue {
    type V = AttrValueView;

    open spec fn view(&self) -> AttrValueView {
        match self {
            AttrValue::Bytes(b) => AttrValueView::Bytes(b@),
            AttrValue::Ulong(u) => AttrValueView::Ulong(*u),
            AttrValue::Bool(b) => AttrValueView::Bool(*b),
        }
    }
}

/// A tagged template attribute.
pub struct AttrSpec {
    pub tag: u64,
    pub value: AttrValue,
}

/// Mathematical view of an [`AttrSpec`].
pub struct AttrSpecView {
    pub tag: u64,
    pub value: AttrValueView,
}

impl View for AttrSpec {
    type V = AttrSpecView;

    open spec fn view(&self) -> AttrSpecView {
        AttrSpecView { tag: self.tag, value: self.value@ }
    }
}

/// The template a sequence of attributes spells, entry by entry.
pub open spec fn template_view(t: Seq<AttrSpec>) -> Seq<AttrSpecView> {
    t.map_values(|a: AttrSpec| a@)
}

/// What the token answered to a signature verification.
#[derive(Clone, Copy, PartialEq, Eq, Structural, Debug)]
pub enum VerifyOutcome {
    Valid,
    InvalidSignature,
    OtherError,
}

/// Loads a PKCS#11 module from a library path. Relies on `Ctx::new`; the
/// outcome depends on what is on disk, so nothing is promised.
#[verifier::external_body]
pub fn ctx_new(path: &str) -> Option<pkcs11::Ctx> {
    pkcs11::Ctx::new(path).ok()
}

/// Initializes a loaded module with OS locking allowed and no mutex
/// callbacks. Relies on `Ctx::initialize` and `CK_C_INITIALIZE_ARGS::new`,
/// whose defaults are exactly that configuration.
#[verifier::external_body]
pub fn ctx_initialize(ctx: &mut pkcs11::Ctx) -> bool {
    ctx.initialize(Some(pkcs11::types::CK_C_INITIALIZE_ARGS::new())).is_ok()
}

/// Opens a serial session against a slot, read-write when asked. Relies on
/// `Ctx::open_session` with the serial-session flag, adding the read-write
/// flag exactly when `read_write` holds.
#[verifier::external_body]
pub fn token_open_session(ctx: &pkcs11::Ctx, slot_number: u64, read_write: bool) -> Result<
    u64,
    (),
> {
    let mut flags = pkcs11::types::CKF_SERIAL_SESSION;
    if read_write {
        flags |= pkcs11::types::CKF_RW_SESSION;
    }
    ctx.open_session(slot_number, flags, None, None).map_err(|_| ())
}

/// Logs the user in on a session with the given PIN. Relies on `Ctx::login`
/// with the user type `CKU_USER`.
#[verifier::external_body]
pub fn token_login(ctx: &pkcs11::Ctx, session: u64, pin: &str) -> bool {
    ctx.login(session, pkcs11::types::CKU_USER, Some(pin)).is_ok()
}

/// Logs the user out on a session. Relies on `Ctx::logout`.
#[verifier::external_body]
pub fn token_logout(ctx: &pkcs11::Ctx, session: u64) -> bool {
    ctx.logout(session).is_ok()
}

/// Closes a session. Relies on `Ctx::close_session`.
#[verifier::external_body]
pub fn token_close_session(ctx: &pkcs11::Ctx, session: u64) -> bool {
    ctx.close_session(session).is_ok()
}

/// Starts an object search for the given template. Relies on
/// `Ctx::find_objects_init`; each template entry becomes one attribute.
#[verifier::external_body]
pub fn token_find_objects_init(ctx: &pkcs11::Ctx, session: u64, template: &Vec<AttrSpec>) -> bool {
    let attrs: Vec<pkcs11::types::CK_ATTRIBUTE> = template.iter().map(|a| match &a.value {
        AttrValue::Bytes(b) => CK_ATTRIBUTE::new(a.tag).with_bytes(b),
        AttrValue::Ulong(u) => CK_ATTRIBUTE::new(a.tag).with_ck_ulong(u),
        AttrValue::Bool(b) => CK_ATTRIBUTE::new(a.tag).with_bool(
            if *b { &1u8 } else { &0u8 },
        ),
    }).collect();
    ctx.find_objects_init(session, &attrs).is_ok()
}

/// Fetches up to `max_count` handles from a started search. Relies on
/// `Ctx::find_objects`.
#[verifier::external_body]
pub fn token_find_objects(ctx: &pkcs11::Ctx, session: u64, max_count: u64) -> Result<Vec<u64>, ()> {
    ctx.find_objects(session, max_count).map_err(|_| ())
}

/// Ends an object search. Relies on `Ctx::find_objects_final`.
#[verifier::external_body]
pub fn token_find_objects_final(ctx: &pkcs11::Ctx, session: u64) -> bool {
    ctx.find_objects_final(session).is_ok()
}

/// Generates an RSA key pair from the two templates. Relies on
/// `Ctx::generate_key_pair` with the `CKM_RSA_PKCS_KEY_PAIR_GEN` mechanism
/// and no mechanism parameter; returns the public and private handles.
#[verifier::external_body]
pub fn token_generate_key_pair(
    ctx: &pkcs11::Ctx,
    session: u64,
    pub_template: &Vec<AttrSpec>,
    priv_template: &Vec<AttrSpec>,
) -> Result<(u64, u64), ()> {
    let mech = CK_MECHANISM {
        mechanism: CKM_RSA_PKCS_KEY_PAIR_GEN,
        pParameter: std::ptr::null_mut(),
        ulParameterLen: 0,
    };
    let conv = |a: &AttrSpec| match &a.value {
        AttrValue::Bytes(b) => CK_ATTRIBUTE::new(a.tag).with_bytes(b),
        AttrValue::Ulong(u) => CK_ATTRIBUTE::new(a.tag).with_ck_ulong(u),
        AttrValue::Bool(b) => CK_ATTRIBUTE::new(a.tag).with_bool(
            if *b { &1u8 } else { &0u8 },
        ),
    };
    let pu: Vec<pkcs11::types::CK_ATTRIBUTE> = pub_template.iter().map(conv).collect();
    let pr: Vec<pkcs11::types::CK_ATTRIBUTE> = priv_template.iter().map(conv).collect();
    ctx.generate_key_pair(session, &mech, &pu, &pr).map_err(|_| ())
}

/// Creates one token object from a template. Relies on `Ctx::create_object`.
#[verifier::external_body]
pub fn token_create_object(ctx: &pkcs11::Ctx, session: u64, template: &Vec<AttrSpec>) -> Result<
    u64,
    (),
> {
    let attrs: Vec<pkcs11::types::CK_ATTRIBUTE> = template.iter().map(|a| match &a.value {
        AttrValue::Bytes(b) => CK_ATTRIBUTE::new(a.tag).with_bytes(b),
        AttrValue::Ulong(u) => CK_ATTRIBUTE::new(a.tag).with_ck_ulong(u),
        AttrValue::Bool(b) => CK_ATTRIBUTE::new(a.tag).with_bool(
            if *b { &1u8 } else { &0u8 },
        ),
    }).collect();
    ctx.create_object(session, &attrs).map_err(|_| ())
}

/// Destroys one token object. Relies on `Ctx::destroy_object`.
#[verifier::external_body]
pub fn token_destroy_object(ctx: &pkcs11::Ctx, session: u64, object: u64) -> bool {
    ctx.destroy_object(session, object).is_ok()
}

/// Reads the value of one attribute of an object, probing its length first
/// as the PKCS#11 convention prescribes. Relies on `Ctx::get_attribute_value`
/// twice: once with an empty value to learn the length, once to fetch.
#[verifier::external_body]
pub fn token_get_attribute_bytes(
    ctx: &pkcs11::Ctx,
    session: u64,
    object: u64,
    attr_type: u64,
) -> Result<Vec<u8>, ()> {
    let mut probe = vec![CK_ATTRIBUTE::new(attr_type)];
    let (rv, _) = ctx.get_attribute_value(session, object, &mut probe).map_err(|_| ())?;
    if rv != pkcs11::types::CKR_OK {
        return Err(());
    }
    let mut buf: Vec<u8> = vec![0; probe[0].ulValueLen as usize];
    let mut fetch = vec![CK_ATTRIBUTE::new(attr_type).with_bytes(
        buf.as_mut_slice(),
    )];
    let (rv2, attrs) = ctx.get_attribute_value(session, object, &mut fetch).map_err(|_| ())?;
    if rv2 != pkcs11::types::CKR_OK {
        return Err(());
    }
    attrs[0].get_bytes().map_err(|_| ())
}

/// Prepares a PKCS#1 v1.5 signature with the given private key. Relies on
/// `Ctx::sign_init` with the `CKM_RSA_PKCS` mechanism.
#[verifier::external_body]
pub fn token_sign_init(ctx: &pkcs11::Ctx, session: u64, key: u64) -> bool {
    let mech = CK_MECHANISM {
        mechanism: CKM_RSA_PKCS,
        pParameter: std::ptr::null_mut(),
        ulParameterLen: 0,
    };
    ctx.sign_init(session, &mech, key).is_ok()
}

/// Signs a hash with the prepared key and returns the signature bytes.
/// Relies on `Ctx::sign`; the result is the token's and nothing is promised
/// of it.
#[verifier::external_body]
pub fn token_sign(ctx: &pkcs11::Ctx, session: u64, hash: &Vec<u8>) -> Result<Vec<u8>, ()> {
    ctx.sign(session, hash).map_err(|_| ())
}

/// Prepares a PKCS#1 v1.5 verification with the given public key. Relies on
/// `Ctx::verify_init` with the `CKM_RSA_PKCS` mechanism.
#[verifier::external_body]
pub fn token_verify_init(ctx: &pkcs11::Ctx, session: u64, key: u64) -> bool {
    let mech = CK_MECHANISM {
        mechanism: CKM_RSA_PKCS,
        pParameter: std::ptr::null_mut(),
        ulParameterLen: 0,
    };
    ctx.verify_init(session, &mech, key).is_ok()
}

/// Verifies a signature over a hash. Relies on `Ctx::verify`; the
/// `CKR_SIGNATURE_INVALID` report is told apart from every other failure.
#[verifier::external_body]
pub fn token_verify(ctx: &pkcs11::Ctx, session: u64, hash: &Vec<u8>, signature: &Vec<u8>) -> (r:
    VerifyOutcome) {
    match ctx.verify(session, hash, signature) {
        Ok(()) => VerifyOutcome::Valid,
        Err(pkcs11::errors::Error::Pkcs11(pkcs11::types::CKR_SIGNATURE_INVALID)) => {
            VerifyOutcome::InvalidSignature
        },
        Err(_) => VerifyOutcome::OtherError,
    }
}

} // verus!
