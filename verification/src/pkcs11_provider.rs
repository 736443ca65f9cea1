//! The PKCS#11 provider: RSA key lifecycle on a hardware token.
//!
//! The provider owns the key-info store, the local-id list, the shared
//! login counter and the loaded token library. Every operation opens one
//! session, logs it in, works, and releases it (logout, then close) on all
//! exit paths. The store and the local-id list satisfy the joint invariant
//! of [`crate::key_metadata`] after construction and after every operation.

use vstd::prelude::*;
use crate::requests::{Opcode, ProviderId, ResponseStatus, ApplicationName};
use crate::operations::{KeyType, KeyAlgorithm, KeyAttributes, ProviderInfo, ProviderInfoView};
use crate::key_info::{KeyInfoStore, KeyTriple, KeyInfoView, KeyTripleView};
use crate::key_metadata::{
    ids_match, store_ids_unique, get_key_id, key_id_exists, create_key_id, remove_key_id,
    id_to_bytes, reconcile_store,
};
use crate::login::{
    login_counter_after, login_marked_after, login_ok, logout_counter_after, logout_marked_after,
    logout_ok,
};
use crate::token::{AttrSpec, AttrValue, AttrSpecView, AttrValueView, template_view, VerifyOutcome};
use crate::der::{rsa_der_encode, rsa_der_decode, spec_rsa_der, spec_rsa_der_decode};

verus! {

// Standard PKCS#11 attribute-type and constant values, as the token wire
// protocol defines them.
pub const ATTR_CLASS: u64 = 0x0000;
pub const ATTR_TOKEN: u64 = 0x0001;
pub const ATTR_PRIVATE: u64 = 0x0002;
pub const ATTR_KEY_TYPE: u64 = 0x0100;
pub const ATTR_ID: u64 = 0x0102;
pub const ATTR_SIGN: u64 = 0x0108;
pub const ATTR_VERIFY: u64 = 0x010A;
pub const ATTR_MODULUS: u64 = 0x0120;
pub const ATTR_MODULUS_BITS: u64 = 0x0121;
pub const ATTR_PUBLIC_EXPONENT: u64 = 0x0122;
pub const OBJECT_CLASS_PUBLIC_KEY: u64 = 2;
pub const OBJECT_CLASS_PRIVATE_KEY: u64 = 3;
pub const KEY_TYPE_RSA: u64 = 0;

/// Which half of a key pair an object search asks for.
#[derive(Clone, Copy, PartialEq, Eq, Structural, Debug)]
pub enum KeyPairType {
    PublicKey,
    PrivateKey,
    Any,
}

/// One session against the token: its handle and whether it currently
/// requires authentication. Scoped to a single operation.
pub struct Session {
    pub handle: u64,
    pub is_logged_in: bool,
}

/// The attributes the provider can generate keys for: RSA key pairs bound
/// to PKCS#1 v1.5 signing.
pub open spec fn supported_generate_attributes(a: KeyAttributes) -> bool {
    a.key_type == KeyType::RsaKeypair && a.algorithm == KeyAlgorithm::RsaPkcs1v15Sign
}

/// The attributes the provider can import keys for: RSA public keys bound
/// to PKCS#1 v1.5 verification.
pub open spec fn supported_import_attributes(a: KeyAttributes) -> bool {
    a.key_type == KeyType::RsaPublicKey && a.algorithm == KeyAlgorithm::RsaPkcs1v15Sign
}

/// Executable twin of [`supported_generate_attributes`].
pub fn generate_attributes_supported(a: &KeyAttributes) -> (r: bool)
    ensures
        r == supported_generate_attributes(*a),
{
    a.key_type == KeyType::RsaKeypair && a.algorithm == KeyAlgorithm::RsaPkcs1v15Sign
}

/// Executable twin of [`supported_import_attributes`].
pub fn import_attributes_supported(a: &KeyAttributes) -> (r: bool)
    ensures
        r == supported_import_attributes(*a),
{
    a.key_type == KeyType::RsaPublicKey && a.algorithm == KeyAlgorithm::RsaPkcs1v15Sign
}


/// The private-key template of key generation, exactly as prescribed:
/// signing allowed, the opaque id, and token residence.
pub open spec fn spec_generate_priv_template(id: u32) -> Seq<AttrSpecView> {
    seq![
        AttrSpecView { tag: ATTR_SIGN, value: AttrValueView::Bool(true) },
        AttrSpecView { tag: ATTR_ID, value: AttrValueView::Bytes(crate::codec::enc_u32(id)) },
        AttrSpecView { tag: ATTR_TOKEN, value: AttrValueView::Bool(true) },
    ]
}

/// The public-key template of key generation, exactly as prescribed:
/// verification allowed, the opaque id, the public exponent 0x010001, the
/// modulus size, token residence, and public visibility.
pub open spec fn spec_generate_pub_template(id: u32, key_size: u32) -> Seq<AttrSpecView> {
    seq![
        AttrSpecView { tag: ATTR_VERIFY, value: AttrValueView::Bool(true) },
        AttrSpecView { tag: ATTR_ID, value: AttrValueView::Bytes(crate::codec::enc_u32(id)) },
        AttrSpecView { tag: ATTR_PUBLIC_EXPONENT, value: AttrValueView::Bytes(seq![
            0x01u8,
            0x00u8,
            0x01u8,
        ]) },
        AttrSpecView { tag: ATTR_MODULUS_BITS, value: AttrValueView::Ulong(key_size as u64) },
        AttrSpecView { tag: ATTR_TOKEN, value: AttrValueView::Bool(true) },
        AttrSpecView { tag: ATTR_PRIVATE, value: AttrValueView::Bool(false) },
    ]
}

/// The object template of public-key import, exactly as prescribed: an RSA
/// public key on the token, its modulus and public exponent, verification
/// allowed, and the opaque id.
pub open spec fn spec_import_template(id: u32, modulus: Seq<u8>, public_exponent: Seq<u8>) -> Seq<
    AttrSpecView,
> {
    seq![
        AttrSpecView { tag: ATTR_CLASS, value: AttrValueView::Ulong(OBJECT_CLASS_PUBLIC_KEY) },
        AttrSpecView { tag: ATTR_KEY_TYPE, value: AttrValueView::Ulong(KEY_TYPE_RSA) },
        AttrSpecView { tag: ATTR_TOKEN, value: AttrValueView::Bool(true) },
        AttrSpecView { tag: ATTR_MODULUS, value: AttrValueView::Bytes(modulus) },
        AttrSpecView { tag: ATTR_PUBLIC_EXPONENT, value: AttrValueView::Bytes(public_exponent) },
        AttrSpecView { tag: ATTR_VERIFY, value: AttrValueView::Bool(true) },
        AttrSpecView { tag: ATTR_ID, value: AttrValueView::Bytes(crate::codec::enc_u32(id)) },
    ]
}

/// The search template of an object lookup: always the opaque id, plus the
/// object class exactly when one half of the pair is asked for.
pub open spec fn spec_find_template(id: u32, key_type: KeyPairType) -> Seq<AttrSpecView> {
    let base = seq![
        AttrSpecView { tag: ATTR_ID, value: AttrValueView::Bytes(crate::codec::enc_u32(id)) },
    ];
    match key_type {
        KeyPairType::PublicKey => base.push(
            AttrSpecView { tag: ATTR_CLASS, value: AttrValueView::Ulong(OBJECT_CLASS_PUBLIC_KEY) },
        ),
        KeyPairType::PrivateKey => base.push(
            AttrSpecView { tag: ATTR_CLASS, value: AttrValueView::Ulong(OBJECT_CLASS_PRIVATE_KEY) },
        ),
        KeyPairType::Any => base,
    }
}

/// Builds exactly [`spec_generate_priv_template`].
pub fn generate_priv_template(id: u32) -> (r: Vec<AttrSpec>)
    ensures
        template_view(r@) == spec_generate_priv_template(id),
{
    let mut r: Vec<AttrSpec> = Vec::new();
    r.push(AttrSpec { tag: ATTR_SIGN, value: AttrValue::Bool(true) });
    r.push(AttrSpec { tag: ATTR_ID, value: AttrValue::Bytes(id_to_bytes(id)) });
    r.push(AttrSpec { tag: ATTR_TOKEN, value: AttrValue::Bool(true) });
    assert(template_view(r@) =~= spec_generate_priv_template(id));
    r
}

/// Builds exactly [`spec_generate_pub_template`].
pub fn generate_pub_template(id: u32, key_size: u32) -> (r: Vec<AttrSpec>)
    ensures
        template_view(r@) == spec_generate_pub_template(id, key_size),
{
    let mut r: Vec<AttrSpec> = Vec::new();
    let mut exponent: Vec<u8> = Vec::new();
    exponent.push(0x01);
    exponent.push(0x00);
    exponent.push(0x01);
    assert(exponent@ =~= seq![0x01u8, 0x00u8, 0x01u8]);
    r.push(AttrSpec { tag: ATTR_VERIFY, value: AttrValue::Bool(true) });
    r.push(AttrSpec { tag: ATTR_ID, value: AttrValue::Bytes(id_to_bytes(id)) });
    r.push(AttrSpec { tag: ATTR_PUBLIC_EXPONENT, value: AttrValue::Bytes(exponent) });
    r.push(AttrSpec { tag: ATTR_MODULUS_BITS, value: AttrValue::Ulong(key_size as u64) });
    r.push(AttrSpec { tag: ATTR_TOKEN, value: AttrValue::Bool(true) });
    r.push(AttrSpec { tag: ATTR_PRIVATE, value: AttrValue::Bool(false) });
    assert(template_view(r@) =~= spec_generate_pub_template(id, key_size));
    r
}

/// Builds exactly [`spec_import_template`].
pub fn import_template(id: u32, modulus: Vec<u8>, public_exponent: Vec<u8>) -> (r: Vec<AttrSpec>)
    ensures
        template_view(r@) == spec_import_template(id, modulus@, public_exponent@),
{
    let ghost m = modulus@;
    let ghost e = public_exponent@;
    let mut r: Vec<AttrSpec> = Vec::new();
    r.push(AttrSpec { tag: ATTR_CLASS, value: AttrValue::Ulong(OBJECT_CLASS_PUBLIC_KEY) });
    r.push(AttrSpec { tag: ATTR_KEY_TYPE, value: AttrValue::Ulong(KEY_TYPE_RSA) });
    r.push(AttrSpec { tag: ATTR_TOKEN, value: AttrValue::Bool(true) });
    r.push(AttrSpec { tag: ATTR_MODULUS, value: AttrValue::Bytes(modulus) });
    r.push(AttrSpec { tag: ATTR_PUBLIC_EXPONENT, value: AttrValue::Bytes(public_exponent) });
    r.push(AttrSpec { tag: ATTR_VERIFY, value: AttrValue::Bool(true) });
    r.push(AttrSpec { tag: ATTR_ID, value: AttrValue::Bytes(id_to_bytes(id)) });
    assert(template_view(r@) =~= spec_import_template(id, m, e));
    r
}

/// Builds exactly [`spec_find_template`].
pub fn find_template(id: u32, key_type: KeyPairType) -> (r: Vec<AttrSpec>)
    ensures
        template_view(r@) == spec_find_template(id, key_type),
{
    let mut r: Vec<AttrSpec> = Vec::new();
    r.push(AttrSpec { tag: ATTR_ID, value: AttrValue::Bytes(id_to_bytes(id)) });
    match key_type {
        KeyPairType::PublicKey => {
            r.push(AttrSpec { tag: ATTR_CLASS, value: AttrValue::Ulong(OBJECT_CLASS_PUBLIC_KEY) });
        },
        KeyPairType::PrivateKey => {
            r.push(
                AttrSpec { tag: ATTR_CLASS, value: AttrValue::Ulong(OBJECT_CLASS_PRIVATE_KEY) },
            );
        },
        KeyPairType::Any => {},
    }
    assert(template_view(r@) =~= spec_find_template(id, key_type));
    r
}

/// The status a verification outcome maps to: a token report of an invalid
/// signature is its own status, any other failure is generic.
pub fn verify_status_of_outcome(outcome: VerifyOutcome) -> (r: Result<(), ResponseStatus>)
    ensures
        r == (match outcome {
            VerifyOutcome::Valid => Result::<(), ResponseStatus>::Ok(()),
            VerifyOutcome::InvalidSignature => Result::<(), ResponseStatus>::Err(
                ResponseStatus::PsaErrorInvalidSignature,
            ),
            VerifyOutcome::OtherError => Result::<(), ResponseStatus>::Err(
                ResponseStatus::PsaErrorGenericError,
            ),
        }),
{
    match outcome {
        VerifyOutcome::Valid => Ok(()),
        VerifyOutcome::InvalidSignature => Err(ResponseStatus::PsaErrorInvalidSignature),
        VerifyOutcome::OtherError => Err(ResponseStatus::PsaErrorGenericError),
    }
}

pub struct Pkcs11Provider {
    key_info_store: KeyInfoStore,
    local_ids: Vec<u32>,
    logged_sessions_counter: u64,
    backend: pkcs11::Ctx,
    slot_number: u64,
    user_pin: Option<String>,
}

impl Pkcs11Provider {
    /// The store as a map from triple views to info views.
    pub closed spec fn store_view(&self) -> Map<KeyTripleView, KeyInfoView> {
        self.key_info_store@
    }

    /// The local-id list.
    pub closed spec fn ids_view(&self) -> Seq<u32> {
        self.local_ids@
    }

    /// The shared login counter.
    pub closed spec fn counter(&self) -> nat {
        self.logged_sessions_counter as nat
    }

    /// Whether a user PIN is configured.
    pub closed spec fn has_pin(&self) -> bool {
        self.user_pin is Some
    }

    /// Well-formedness: the store representation is sound and the local-id
    /// list holds exactly the ids of the stored PKCS#11 entries, each once.
    pub closed spec fn wf(&self) -> bool {
        &&& self.key_info_store.wf()
        &&& ids_match(self.key_info_store@, self.local_ids@)
        &&& store_ids_unique(self.key_info_store@)
    }

    /// The opcodes this provider supports.
    pub fn list_opcodes(&self) -> (r: Result<Vec<Opcode>, ResponseStatus>)
        ensures
            match r {
                Result::Ok(ops) => ops@ == spec_pkcs11_opcodes(),
                Result::Err(..) => false,
            },
    {
        let mut ops: Vec<Opcode> = Vec::new();
        ops.push(Opcode::PsaGenerateKey);
        ops.push(Opcode::PsaDestroyKey);
        ops.push(Opcode::PsaSignHash);
        ops.push(Opcode::PsaVerifyHash);
        ops.push(Opcode::PsaImportKey);
        ops.push(Opcode::PsaExportPublicKey);
        ops.push(Opcode::ListOpcodes);
        assert(ops@ =~= spec_pkcs11_opcodes());
        Ok(ops)
    }

    /// This provider's own description.
    pub fn describe(&self) -> (r: ProviderInfo)
        ensures
            r@ == spec_pkcs11_describe(),
    {
        let mut uuid: Vec<u8> = Vec::new();
        uuid.push(0x30);
        uuid.push(0xe3);
        uuid.push(0x95);
        uuid.push(0x02);
        uuid.push(0xeb);
        uuid.push(0xa6);
        uuid.push(0x4d);
        uuid.push(0x60);
        uuid.push(0xa4);
        uuid.push(0xaf);
        uuid.push(0xc5);
        uuid.push(0x18);
        uuid.push(0xb7);
        uuid.push(0xf5);
        uuid.push(0xe3);
        uuid.push(0x8f);
        let r = ProviderInfo {
            uuid,
            description: ("PKCS #11 provider, interfacing with a PKCS #11 library.").to_string(),
            vendor: ("OASIS Standard.").to_string(),
            version_maj: 0,
            version_min: 1,
            version_rev: 0,
            id: ProviderId::Pkcs11,
        };
        proof {
            assert(r@.uuid =~= spec_pkcs11_describe().uuid);
        }
        r
    }

    /// Logs a session in under the counter discipline: a no-op if the
    /// session already requires authentication or another one does; the one
    /// token login happens when the counter rises from zero with a PIN
    /// configured; without a PIN the session is marked and the token left
    /// alone. The transition functions this is proved against obey the
    /// counter laws of [`crate::login`], interleaving included.
    fn session_login(&mut self, session: &mut Session) -> (r: Result<(), ResponseStatus>)
        requires
            old(self).counter() < u64::MAX,
        ensures
            final(self).key_info_store == old(self).key_info_store,
            final(self).local_ids == old(self).local_ids,
            final(self).slot_number == old(self).slot_number,
            final(self).user_pin == old(self).user_pin,
            final(session).handle == old(session).handle,
            final(self).counter() <= old(self).counter() + 1,
            exists|tok: bool|
                {
                    &&& (r is Ok) == login_ok(
                        old(self).counter(),
                        old(session).is_logged_in,
                        old(self).has_pin(),
                        tok,
                    )
                    &&& final(self).counter() == login_counter_after(
                        old(self).counter(),
                        old(session).is_logged_in,
                        old(self).has_pin(),
                        tok,
                    )
                    &&& final(session).is_logged_in == login_marked_after(
                        old(self).counter(),
                        old(session).is_logged_in,
                        old(self).has_pin(),
                        tok,
                    )
                },
            r is Err ==> r == Err::<(), ResponseStatus>(ResponseStatus::PsaErrorHardwareFailure),
    {
        if session.is_logged_in {
            proof {
                let tok = true;
                assert(login_ok(old(self).counter(), true, old(self).has_pin(), tok));
            }
            Ok(())
        } else if self.logged_sessions_counter > 0 {
            self.logged_sessions_counter = self.logged_sessions_counter + 1;
            session.is_logged_in = true;
            proof {
                let tok = true;
                assert(login_ok(old(self).counter(), false, old(self).has_pin(), tok));
            }
            Ok(())
        } else {
            let logged_in = match &self.user_pin {
                Option::Some(pin) => {
                    if crate::token::token_login(&self.backend, session.handle, pin.as_str()) {
                        Some(true)
                    } else {
                        Some(false)
                    }
                },
                Option::None => None,
            };
            match logged_in {
                Option::Some(true) => {
                    self.logged_sessions_counter = 1;
                    session.is_logged_in = true;
                    proof {
                        let tok = true;
                        assert(login_ok(old(self).counter(), false, old(self).has_pin(), tok)
                            && final(self).counter() == login_counter_after(
                            old(self).counter(),
                            false,
                            old(self).has_pin(),
                            tok,
                        ));
                    }
                    Ok(())
                },
                Option::Some(false) => {
                    proof {
                        let tok = false;
                        assert(!login_ok(old(self).counter(), false, old(self).has_pin(), tok));
                    }
                    Err(ResponseStatus::PsaErrorHardwareFailure)
                },
                Option::None => {
                    session.is_logged_in = true;
                    proof {
                        let tok = true;
                        assert(login_ok(old(self).counter(), false, old(self).has_pin(), tok));
                    }
                    Ok(())
                },
            }
        }
    }

    /// Logs a session out under the counter discipline: the one token logout
    /// happens when the counter falls back to zero, as the counter laws of
    /// [`crate::login`] state.
    fn session_logout(&mut self, session: &mut Session) -> (r: Result<(), ResponseStatus>)
        ensures
            final(self).key_info_store == old(self).key_info_store,
            final(self).local_ids == old(self).local_ids,
            final(self).slot_number == old(self).slot_number,
            final(self).user_pin == old(self).user_pin,
            final(session).handle == old(session).handle,
            final(self).counter() <= old(self).counter(),
            exists|tok: bool|
                {
                    &&& (r is Ok) == logout_ok(old(self).counter(), old(session).is_logged_in, tok)
                    &&& final(self).counter() == logout_counter_after(
                        old(self).counter(),
                        old(session).is_logged_in,
                        tok,
                    )
                    &&& final(session).is_logged_in == logout_marked_after(
                        old(self).counter(),
                        old(session).is_logged_in,
                        tok,
                    )
                },
            r is Err ==> r == Err::<(), ResponseStatus>(ResponseStatus::PsaErrorHardwareFailure),
    {
        if !session.is_logged_in {
            proof {
                assert(logout_ok(old(self).counter(), false, true));
            }
            Ok(())
        } else if self.logged_sessions_counter == 0 {
            proof {
                assert(logout_ok(old(self).counter(), true, true));
            }
            Ok(())
        } else if self.logged_sessions_counter == 1 {
            if crate::token::token_logout(&self.backend, session.handle) {
                self.logged_sessions_counter = 0;
                session.is_logged_in = false;
                proof {
                    assert(logout_ok(old(self).counter(), true, true) && final(self).counter()
                        == logout_counter_after(old(self).counter(), true, true));
                }
                Ok(())
            } else {
                proof {
                    assert(!logout_ok(old(self).counter(), true, false));
                }
                Err(ResponseStatus::PsaErrorHardwareFailure)
            }
        } else {
            self.logged_sessions_counter = self.logged_sessions_counter - 1;
            session.is_logged_in = false;
            proof {
                assert(logout_ok(old(self).counter(), true, true));
            }
            Ok(())
        }
    }

    /// Opens one session for one operation: a serial session against the
    /// configured slot, read-write when asked, and logged in at once.
    fn session_new(&mut self, read_write: bool) -> (r: Result<Session, ResponseStatus>)
        requires
            old(self).counter() < u64::MAX,
        ensures
            final(self).key_info_store == old(self).key_info_store,
            final(self).local_ids == old(self).local_ids,
            final(self).slot_number == old(self).slot_number,
            final(self).user_pin == old(self).user_pin,
            r is Err ==> final(self).counter() == old(self).counter() && (r == Err::<
                Session,
                ResponseStatus,
            >(ResponseStatus::PsaErrorCommunicationFailure) || r == Err::<
                Session,
                ResponseStatus,
            >(ResponseStatus::PsaErrorHardwareFailure)),
            r is Ok ==> final(self).counter() <= old(self).counter() + 1,
            r matches Ok(s) ==> s.is_logged_in,
    {
        let handle = match crate::token::token_open_session(
            &self.backend,
            self.slot_number,
            read_write,
        ) {
            Result::Ok(h) => h,
            Result::Err(..) => {
                return Err(ResponseStatus::PsaErrorCommunicationFailure);
            },
        };
        let mut session = Session { handle, is_logged_in: false };
        match self.session_login(&mut session) {
            Result::Ok(..) => Ok(session),
            Result::Err(e) => {
                let _ = crate::token::token_close_session(&self.backend, session.handle);
                Err(e)
            },
        }
    }

    /// Releases a session on an exit path: logout first, then close; a
    /// failure of either is not an operation failure.
    fn session_release(&mut self, session: Session)
        ensures
            final(self).key_info_store == old(self).key_info_store,
            final(self).local_ids == old(self).local_ids,
            final(self).slot_number == old(self).slot_number,
            final(self).user_pin == old(self).user_pin,
            final(self).counter() <= old(self).counter(),
    {
        let mut session = session;
        let _ = self.session_logout(&mut session);
        let _ = crate::token::token_close_session(&self.backend, session.handle);
    }

    /// Finds the token object carrying an opaque id, optionally constrained
    /// to one half of a key pair. `PsaErrorDoesNotExist` reports an empty
    /// search, `PsaErrorHardwareFailure` a transport failure.
    fn find_key(&self, session: u64, key_id: u32, key_type: KeyPairType) -> (r: Result<
        u64,
        ResponseStatus,
    >)
        ensures
            r is Err ==> (r == Err::<u64, ResponseStatus>(ResponseStatus::PsaErrorDoesNotExist)
                || r == Err::<u64, ResponseStatus>(ResponseStatus::PsaErrorHardwareFailure)),
    {
        let template = find_template(key_id, key_type);
        if !crate::token::token_find_objects_init(&self.backend, session, &template) {
            return Err(ResponseStatus::PsaErrorHardwareFailure);
        }
        let objects = match crate::token::token_find_objects(&self.backend, session, 1) {
            Result::Ok(o) => o,
            Result::Err(..) => {
                return Err(ResponseStatus::PsaErrorHardwareFailure);
            },
        };
        if !crate::token::token_find_objects_final(&self.backend, session) {
            return Err(ResponseStatus::PsaErrorHardwareFailure);
        }
        if objects.len() == 0 {
            Err(ResponseStatus::PsaErrorDoesNotExist)
        } else {
            Ok(objects[0])
        }
    }
}

/// The provider description the PKCS#11 provider reports for itself.
pub open spec fn spec_pkcs11_describe() -> ProviderInfoView {
    ProviderInfoView {
        uuid: seq![
            0x30u8,
            0xe3u8,
            0x95u8,
            0x02u8,
            0xebu8,
            0xa6u8,
            0x4du8,
            0x60u8,
            0xa4u8,
            0xafu8,
            0xc5u8,
            0x18u8,
            0xb7u8,
            0xf5u8,
            0xe3u8,
            0x8fu8,
        ],
        description: ("PKCS #11 provider, interfacing with a PKCS #11 library.")@,
        vendor: ("OASIS Standard.")@,
        version_maj: 0,
        version_min: 1,
        version_rev: 0,
        id: ProviderId::Pkcs11,
    }
}


/// The opcodes the PKCS#11 provider supports.
pub open spec fn spec_pkcs11_opcodes() -> Seq<Opcode> {
    seq![
        Opcode::PsaGenerateKey,
        Opcode::PsaDestroyKey,
        Opcode::PsaSignHash,
        Opcode::PsaVerifyHash,
        Opcode::PsaImportKey,
        Opcode::PsaExportPublicKey,
        Opcode::ListOpcodes,
    ]
}

/// The triple a tenant-scoped PKCS#11 operation works on.
pub open spec fn p11_triple(app_name: Seq<char>, key_name: Seq<char>) -> KeyTripleView {
    KeyTripleView { app_name, provider_id: ProviderId::Pkcs11, key_name }
}

impl Pkcs11Provider {
    /// Generates an RSA signing key pair on the token under a fresh opaque
    /// id and records it in the store. Only RSA key pairs bound to PKCS#1
    /// v1.5 signing are supported; an existing triple is refused; a token
    /// failure is compensated by removing the recorded entry again.
    #[verifier::spinoff_prover]
    #[verifier::rlimit(100)]
    pub fn psa_generate_key(
        &mut self,
        app_name: &ApplicationName,
        key_name: String,
        attributes: KeyAttributes,
    ) -> (r: Result<(), ResponseStatus>)
        requires
            old(self).wf(),
            old(self).counter() < u64::MAX,
            old(self).ids_view().len() < u32::MAX,
        ensures
            final(self).wf(),
            final(self).counter() <= old(self).counter() + 1,
            final(self).ids_view().len() <= old(self).ids_view().len() + 1,
            r matches Err(e) ==> (e == ResponseStatus::UnsupportedOperation || e
                == ResponseStatus::KeyAlreadyExists || e
                == ResponseStatus::PsaErrorCommunicationFailure || e
                == ResponseStatus::PsaErrorHardwareFailure),
            !supported_generate_attributes(attributes) ==> r == Err::<(), ResponseStatus>(
                ResponseStatus::UnsupportedOperation,
            ) && final(self).store_view() == old(self).store_view() && final(self).ids_view()
                == old(self).ids_view() && final(self).counter() == old(self).counter(),
            supported_generate_attributes(attributes) && old(self).store_view().contains_key(
                p11_triple(app_name@, key_name@),
            ) ==> r == Err::<(), ResponseStatus>(ResponseStatus::KeyAlreadyExists) && final(self).store_view() == old(self).store_view() && final(self).ids_view() == old(self).ids_view() && final(self).counter() == old(self).counter(),
            supported_generate_attributes(attributes) && !old(self).store_view().contains_key(
                p11_triple(app_name@, key_name@),
            ) ==> match r {
                Result::Ok(..) => exists|id: u32|
                    !old(self).ids_view().contains(id) && final(self).store_view() == old(self).store_view().insert(
                        p11_triple(app_name@, key_name@),
                        (KeyInfoView { id: crate::codec::enc_u32(id), attributes }),
                    ) && final(self).ids_view() == old(self).ids_view().push(id),
                Result::Err(e) => final(self).store_view() == old(self).store_view() && (forall|
                    x: u32,
                |
                    final(self).ids_view().contains(x) <==> old(self).ids_view().contains(x)) && (e
                    == ResponseStatus::PsaErrorCommunicationFailure || e
                    == ResponseStatus::PsaErrorHardwareFailure),
            },
    {
        if !generate_attributes_supported(&attributes) {
            return Err(ResponseStatus::UnsupportedOperation);
        }
        let key_triple = KeyTriple::new(app_name.name.clone(), ProviderId::Pkcs11, key_name);
        if key_id_exists(&key_triple, &self.key_info_store) {
            return Err(ResponseStatus::KeyAlreadyExists);
        }
        let id = create_key_id(
            key_triple.duplicate(),
            attributes,
            &mut self.key_info_store,
            &mut self.local_ids,
        );
        let priv_template = generate_priv_template(id);
        let pub_template = generate_pub_template(id, attributes.key_size);
        let session = match self.session_new(true) {
            Result::Ok(s) => s,
            Result::Err(e) => {
                remove_key_id(&key_triple, id, &mut self.key_info_store, &mut self.local_ids);
                proof {
                    assert(final(self).store_view() =~= old(self).store_view());
                    assert forall|x: u32|
                        final(self).ids_view().contains(x) <==> old(self).ids_view().contains(
                        x,
                    ) by {
                        if old(self).ids_view().contains(x) {
                            assert(old(self).ids_view().push(id).contains(x)) by {
                                let j = choose|j: int|
                                    0 <= j < old(self).ids_view().len() && old(self).ids_view()[j]
                                        == x;
                                assert(old(self).ids_view().push(id)[j] == x);
                            }
                        }
                    }
                }
                return Err(e);
            },
        };
        match crate::token::token_generate_key_pair(
            &self.backend,
            session.handle,
            &pub_template,
            &priv_template,
        ) {
            Result::Ok(..) => {
                self.session_release(session);
                proof {
                    assert(!old(self).ids_view().contains(id) && final(self).store_view() == old(
                        self,
                    ).store_view().insert(
                        p11_triple(app_name@, key_name@),
                        (KeyInfoView { id: crate::codec::enc_u32(id), attributes }),
                    ) && final(self).ids_view() == old(self).ids_view().push(id));
                }
                Ok(())
            },
            Result::Err(..) => {
                self.session_release(session);
                remove_key_id(&key_triple, id, &mut self.key_info_store, &mut self.local_ids);
                proof {
                    assert(final(self).store_view() =~= old(self).store_view());
                    assert forall|x: u32|
                        final(self).ids_view().contains(x) <==> old(self).ids_view().contains(
                        x,
                    ) by {
                        if old(self).ids_view().contains(x) {
                            assert(old(self).ids_view().push(id).contains(x)) by {
                                let j = choose|j: int|
                                    0 <= j < old(self).ids_view().len() && old(self).ids_view()[j]
                                        == x;
                                assert(old(self).ids_view().push(id)[j] == x);
                            }
                        }
                    }
                }
                Err(ResponseStatus::PsaErrorHardwareFailure)
            },
        }
    }

    /// Imports an RSA public key: the data must be the DER form of an RSA
    /// public key and the attributes must ask for RSA public verification.
    /// A fresh opaque id is recorded as in generation, and a token failure
    /// compensated the same way.
    #[verifier::spinoff_prover]
    #[verifier::rlimit(100)]
    pub fn psa_import_key(
        &mut self,
        app_name: &ApplicationName,
        key_name: String,
        attributes: KeyAttributes,
        data: Vec<u8>,
    ) -> (r: Result<(), ResponseStatus>)
        requires
            old(self).wf(),
            old(self).counter() < u64::MAX,
            old(self).ids_view().len() < u32::MAX,
        ensures
            final(self).wf(),
            final(self).counter() <= old(self).counter() + 1,
            final(self).ids_view().len() <= old(self).ids_view().len() + 1,
            r matches Err(e) ==> (e == ResponseStatus::UnsupportedOperation || e
                == ResponseStatus::PsaErrorInvalidArgument || e == ResponseStatus::KeyAlreadyExists
                || e == ResponseStatus::PsaErrorCommunicationFailure || e
                == ResponseStatus::PsaErrorHardwareFailure),
            !supported_import_attributes(attributes) ==> r == Err::<(), ResponseStatus>(
                ResponseStatus::UnsupportedOperation,
            ) && final(self).store_view() == old(self).store_view() && final(self).ids_view()
                == old(self).ids_view(),
            supported_import_attributes(attributes) && spec_rsa_der_decode(data@) is None ==> r
                == Err::<(), ResponseStatus>(ResponseStatus::PsaErrorInvalidArgument) && final(self).store_view() == old(self).store_view() && final(self).ids_view() == old(self).ids_view(),
            supported_import_attributes(attributes) && spec_rsa_der_decode(data@) is Some && old(self).store_view().contains_key(p11_triple(app_name@, key_name@)) ==> r == Err::<
                (),
                ResponseStatus,
            >(ResponseStatus::KeyAlreadyExists) && final(self).store_view() == old(self).store_view() && final(self).ids_view() == old(self).ids_view(),
            supported_import_attributes(attributes) && spec_rsa_der_decode(data@) is Some && !old(self).store_view().contains_key(p11_triple(app_name@, key_name@)) ==> match r {
                Result::Ok(..) => exists|id: u32|
                    !old(self).ids_view().contains(id) && final(self).store_view() == old(self).store_view().insert(
                        p11_triple(app_name@, key_name@),
                        (KeyInfoView { id: crate::codec::enc_u32(id), attributes }),
                    ) && final(self).ids_view() == old(self).ids_view().push(id),
                Result::Err(e) => final(self).store_view() == old(self).store_view() && (forall|
                    x: u32,
                |
                    final(self).ids_view().contains(x) <==> old(self).ids_view().contains(x)) && (e
                    == ResponseStatus::PsaErrorCommunicationFailure || e
                    == ResponseStatus::PsaErrorHardwareFailure),
            },
    {
        if !import_attributes_supported(&attributes) {
            return Err(ResponseStatus::UnsupportedOperation);
        }
        let (modulus, public_exponent) = match rsa_der_decode(&data) {
            Option::Some(parts) => parts,
            Option::None => {
                return Err(ResponseStatus::PsaErrorInvalidArgument);
            },
        };
        let key_triple = KeyTriple::new(app_name.name.clone(), ProviderId::Pkcs11, key_name);
        if key_id_exists(&key_triple, &self.key_info_store) {
            return Err(ResponseStatus::KeyAlreadyExists);
        }
        let id = create_key_id(
            key_triple.duplicate(),
            attributes,
            &mut self.key_info_store,
            &mut self.local_ids,
        );
        let template = import_template(id, modulus, public_exponent);
        let session = match self.session_new(true) {
            Result::Ok(s) => s,
            Result::Err(e) => {
                remove_key_id(&key_triple, id, &mut self.key_info_store, &mut self.local_ids);
                proof {
                    assert(final(self).store_view() =~= old(self).store_view());
                    assert forall|x: u32|
                        final(self).ids_view().contains(x) <==> old(self).ids_view().contains(
                        x,
                    ) by {
                        if old(self).ids_view().contains(x) {
                            assert(old(self).ids_view().push(id).contains(x)) by {
                                let j = choose|j: int|
                                    0 <= j < old(self).ids_view().len() && old(self).ids_view()[j]
                                        == x;
                                assert(old(self).ids_view().push(id)[j] == x);
                            }
                        }
                    }
                }
                return Err(e);
            },
        };
        match crate::token::token_create_object(&self.backend, session.handle, &template) {
            Result::Ok(..) => {
                self.session_release(session);
                proof {
                    assert(!old(self).ids_view().contains(id) && final(self).store_view() == old(
                        self,
                    ).store_view().insert(
                        p11_triple(app_name@, key_name@),
                        (KeyInfoView { id: crate::codec::enc_u32(id), attributes }),
                    ) && final(self).ids_view() == old(self).ids_view().push(id));
                }
                Ok(())
            },
            Result::Err(..) => {
                self.session_release(session);
                remove_key_id(&key_triple, id, &mut self.key_info_store, &mut self.local_ids);
                proof {
                    assert(final(self).store_view() =~= old(self).store_view());
                    assert forall|x: u32|
                        final(self).ids_view().contains(x) <==> old(self).ids_view().contains(
                        x,
                    ) by {
                        if old(self).ids_view().contains(x) {
                            assert(old(self).ids_view().push(id).contains(x)) by {
                                let j = choose|j: int|
                                    0 <= j < old(self).ids_view().len() && old(self).ids_view()[j]
                                        == x;
                                assert(old(self).ids_view().push(id)[j] == x);
                            }
                        }
                    }
                }
                Err(ResponseStatus::PsaErrorHardwareFailure)
            },
        }
    }

    /// Exports the public half of a stored key as the DER form of an RSA
    /// public key, reading the modulus and public exponent off the token.
    pub fn psa_export_public_key(&mut self, app_name: &ApplicationName, key_name: String) -> (r:
        Result<Vec<u8>, ResponseStatus>)
        requires
            old(self).wf(),
            old(self).counter() < u64::MAX,
        ensures
            final(self).wf(),
            final(self).counter() <= old(self).counter() + 1,
            r matches Err(e) ==> (e == ResponseStatus::PsaErrorDoesNotExist || e
                == ResponseStatus::KeyInfoManagerError || e
                == ResponseStatus::PsaErrorCommunicationFailure || e
                == ResponseStatus::PsaErrorHardwareFailure),
            final(self).store_view() == old(self).store_view(),
            final(self).ids_view() == old(self).ids_view(),
            !old(self).store_view().contains_key(p11_triple(app_name@, key_name@)) ==> r == Err::<
                Vec<u8>,
                ResponseStatus,
            >(ResponseStatus::PsaErrorDoesNotExist),
            old(self).store_view().contains_key(p11_triple(app_name@, key_name@)) && old(self).store_view()[p11_triple(app_name@, key_name@)].id.len() != 4 ==> r == Err::<
                Vec<u8>,
                ResponseStatus,
            >(ResponseStatus::KeyInfoManagerError),
            match r {
                Result::Ok(v) => old(self).store_view().contains_key(
                    p11_triple(app_name@, key_name@),
                ) && exists|m: Seq<u8>, e: Seq<u8>| v@ == spec_rsa_der(m, e),
                Result::Err(..) => true,
            },
    {
        let key_triple = KeyTriple::new(app_name.name.clone(), ProviderId::Pkcs11, key_name);
        let id = match get_key_id(&key_triple, &self.key_info_store) {
            Result::Ok(id) => id,
            Result::Err(e) => {
                return Err(e);
            },
        };
        let session = match self.session_new(false) {
            Result::Ok(s) => s,
            Result::Err(e) => {
                return Err(e);
            },
        };
        let key = match self.find_key(session.handle, id, KeyPairType::PublicKey) {
            Result::Ok(k) => k,
            Result::Err(e) => {
                self.session_release(session);
                return Err(e);
            },
        };
        let modulus = match crate::token::token_get_attribute_bytes(
            &self.backend,
            session.handle,
            key,
            ATTR_MODULUS,
        ) {
            Result::Ok(m) => m,
            Result::Err(..) => {
                self.session_release(session);
                return Err(ResponseStatus::PsaErrorCommunicationFailure);
            },
        };
        let public_exponent = match crate::token::token_get_attribute_bytes(
            &self.backend,
            session.handle,
            key,
            ATTR_PUBLIC_EXPONENT,
        ) {
            Result::Ok(e) => e,
            Result::Err(..) => {
                self.session_release(session);
                return Err(ResponseStatus::PsaErrorCommunicationFailure);
            },
        };
        self.session_release(session);
        match rsa_der_encode(&modulus, &public_exponent) {
            Option::Some(data) => {
                proof {
                    assert(data@ == spec_rsa_der(modulus@, public_exponent@));
                }
                Ok(data)
            },
            Option::None => Err(ResponseStatus::PsaErrorCommunicationFailure),
        }
    }

    /// Destroys a stored key: both token objects carrying the opaque id are
    /// destroyed (the second is optional), then the entry and its id are
    /// released. On any token failure the entry stays, to be reconciled at
    /// the next startup.
    #[verifier::spinoff_prover]
    #[verifier::rlimit(100)]
    pub fn psa_destroy_key(&mut self, app_name: &ApplicationName, key_name: String) -> (r: Result<
        (),
        ResponseStatus,
    >)
        requires
            old(self).wf(),
            old(self).counter() < u64::MAX,
        ensures
            final(self).wf(),
            final(self).counter() <= old(self).counter() + 1,
            final(self).ids_view().len() <= old(self).ids_view().len(),
            r matches Err(e) ==> (e == ResponseStatus::PsaErrorDoesNotExist || e
                == ResponseStatus::KeyInfoManagerError || e
                == ResponseStatus::PsaErrorCommunicationFailure || e
                == ResponseStatus::PsaErrorHardwareFailure || e
                == ResponseStatus::PsaErrorGenericError),
            !old(self).store_view().contains_key(p11_triple(app_name@, key_name@)) ==> r == Err::<
                (),
                ResponseStatus,
            >(ResponseStatus::PsaErrorDoesNotExist) && final(self).store_view() == old(self).store_view() && final(self).ids_view() == old(self).ids_view(),
            old(self).store_view().contains_key(p11_triple(app_name@, key_name@)) && old(self).store_view()[p11_triple(app_name@, key_name@)].id.len() != 4 ==> r == Err::<
                (),
                ResponseStatus,
            >(ResponseStatus::KeyInfoManagerError) && final(self).store_view() == old(self).store_view() && final(self).ids_view() == old(self).ids_view(),
            match r {
                Result::Ok(..) => old(self).store_view().contains_key(
                    p11_triple(app_name@, key_name@),
                ) && final(self).store_view() == old(self).store_view().remove(
                    p11_triple(app_name@, key_name@),
                ) && (forall|x: u32|
                    final(self).ids_view().contains(x) <==> (old(self).ids_view().contains(x) && x
                        != crate::key_metadata::id_of_bytes(
                        old(self).store_view()[p11_triple(app_name@, key_name@)].id,
                    ))),
                Result::Err(..) => final(self).store_view() == old(self).store_view() && final(self).ids_view() == old(self).ids_view(),
            },
    {
        let key_triple = KeyTriple::new(app_name.name.clone(), ProviderId::Pkcs11, key_name);
        let id = match get_key_id(&key_triple, &self.key_info_store) {
            Result::Ok(id) => id,
            Result::Err(e) => {
                return Err(e);
            },
        };
        proof {
            crate::key_metadata::lemma_id_bytes_inverse(id);
        }
        let session = match self.session_new(true) {
            Result::Ok(s) => s,
            Result::Err(e) => {
                return Err(e);
            },
        };
        let first = match self.find_key(session.handle, id, KeyPairType::Any) {
            Result::Ok(k) => k,
            Result::Err(e) => {
                self.session_release(session);
                return Err(e);
            },
        };
        if !crate::token::token_destroy_object(&self.backend, session.handle, first) {
            self.session_release(session);
            return Err(ResponseStatus::PsaErrorGenericError);
        }
        match self.find_key(session.handle, id, KeyPairType::Any) {
            Result::Ok(second) => {
                if !crate::token::token_destroy_object(&self.backend, session.handle, second) {
                    self.session_release(session);
                    return Err(ResponseStatus::PsaErrorGenericError);
                }
            },
            Result::Err(ResponseStatus::PsaErrorDoesNotExist) => {},
            Result::Err(e) => {
                self.session_release(session);
                return Err(e);
            },
        }
        self.session_release(session);
        remove_key_id(&key_triple, id, &mut self.key_info_store, &mut self.local_ids);
        Ok(())
    }

    /// Signs a hash with the private half of a stored key using PKCS#1 v1.5.
    pub fn psa_sign_hash(&mut self, app_name: &ApplicationName, key_name: String, hash: Vec<u8>)
        -> (r: Result<Vec<u8>, ResponseStatus>)
        requires
            old(self).wf(),
            old(self).counter() < u64::MAX,
        ensures
            final(self).wf(),
            final(self).counter() <= old(self).counter() + 1,
            r matches Err(e) ==> (e == ResponseStatus::PsaErrorDoesNotExist || e
                == ResponseStatus::KeyInfoManagerError || e
                == ResponseStatus::PsaErrorCommunicationFailure || e
                == ResponseStatus::PsaErrorHardwareFailure || e
                == ResponseStatus::PsaErrorGenericError),
            final(self).store_view() == old(self).store_view(),
            final(self).ids_view() == old(self).ids_view(),
            !old(self).store_view().contains_key(p11_triple(app_name@, key_name@)) ==> r == Err::<
                Vec<u8>,
                ResponseStatus,
            >(ResponseStatus::PsaErrorDoesNotExist),
            old(self).store_view().contains_key(p11_triple(app_name@, key_name@)) && old(self).store_view()[p11_triple(app_name@, key_name@)].id.len() != 4 ==> r == Err::<
                Vec<u8>,
                ResponseStatus,
            >(ResponseStatus::KeyInfoManagerError),
            r is Ok ==> old(self).store_view().contains_key(p11_triple(app_name@, key_name@)),
    {
        let key_triple = KeyTriple::new(app_name.name.clone(), ProviderId::Pkcs11, key_name);
        let id = match get_key_id(&key_triple, &self.key_info_store) {
            Result::Ok(id) => id,
            Result::Err(e) => {
                return Err(e);
            },
        };
        let session = match self.session_new(true) {
            Result::Ok(s) => s,
            Result::Err(e) => {
                return Err(e);
            },
        };
        let key = match self.find_key(session.handle, id, KeyPairType::PrivateKey) {
            Result::Ok(k) => k,
            Result::Err(e) => {
                self.session_release(session);
                return Err(e);
            },
        };
        if !crate::token::token_sign_init(&self.backend, session.handle, key) {
            self.session_release(session);
            return Err(ResponseStatus::PsaErrorGenericError);
        }
        match crate::token::token_sign(&self.backend, session.handle, &hash) {
            Result::Ok(signature) => {
                self.session_release(session);
                Ok(signature)
            },
            Result::Err(..) => {
                self.session_release(session);
                Err(ResponseStatus::PsaErrorGenericError)
            },
        }
    }

    /// Verifies a PKCS#1 v1.5 signature over a hash with the public half of
    /// a stored key. A token report of an invalid signature becomes
    /// `PsaErrorInvalidSignature`; any other token failure is generic.
    pub fn psa_verify_hash(
        &mut self,
        app_name: &ApplicationName,
        key_name: String,
        hash: Vec<u8>,
        signature: Vec<u8>,
    ) -> (r: Result<(), ResponseStatus>)
        requires
            old(self).wf(),
            old(self).counter() < u64::MAX,
        ensures
            final(self).wf(),
            final(self).counter() <= old(self).counter() + 1,
            r matches Err(e) ==> (e == ResponseStatus::PsaErrorDoesNotExist || e
                == ResponseStatus::KeyInfoManagerError || e
                == ResponseStatus::PsaErrorCommunicationFailure || e
                == ResponseStatus::PsaErrorHardwareFailure || e
                == ResponseStatus::PsaErrorInvalidSignature || e
                == ResponseStatus::PsaErrorGenericError),
            final(self).store_view() == old(self).store_view(),
            final(self).ids_view() == old(self).ids_view(),
            !old(self).store_view().contains_key(p11_triple(app_name@, key_name@)) ==> r == Err::<
                (),
                ResponseStatus,
            >(ResponseStatus::PsaErrorDoesNotExist),
            old(self).store_view().contains_key(p11_triple(app_name@, key_name@)) && old(self).store_view()[p11_triple(app_name@, key_name@)].id.len() != 4 ==> r == Err::<
                (),
                ResponseStatus,
            >(ResponseStatus::KeyInfoManagerError),
            r is Ok ==> old(self).store_view().contains_key(p11_triple(app_name@, key_name@)),
    {
        let key_triple = KeyTriple::new(app_name.name.clone(), ProviderId::Pkcs11, key_name);
        let id = match get_key_id(&key_triple, &self.key_info_store) {
            Result::Ok(id) => id,
            Result::Err(e) => {
                return Err(e);
            },
        };
        let session = match self.session_new(true) {
            Result::Ok(s) => s,
            Result::Err(e) => {
                return Err(e);
            },
        };
        let key = match self.find_key(session.handle, id, KeyPairType::PublicKey) {
            Result::Ok(k) => k,
            Result::Err(e) => {
                self.session_release(session);
                return Err(e);
            },
        };
        if !crate::token::token_verify_init(&self.backend, session.handle, key) {
            self.session_release(session);
            return Err(ResponseStatus::PsaErrorGenericError);
        }
        let outcome = crate::token::token_verify(&self.backend, session.handle, &hash, &signature);
        self.session_release(session);
        verify_status_of_outcome(outcome)
    }

    /// Builds a provider over an initialised token library and reconciles
    /// the given store against the token: every triple whose object the
    /// token reports missing is removed, the local-id list is rebuilt from
    /// what remains, and any other token error aborts construction.
    pub fn new(
        key_info_store: KeyInfoStore,
        backend: pkcs11::Ctx,
        slot_number: u64,
        user_pin: Option<String>,
    ) -> (r: Option<Pkcs11Provider>)
        requires
            key_info_store.wf(),
        ensures
            match r {
                Option::Some(p) => p.wf() && (forall|k: KeyTripleView|
                    #[trigger] p.store_view().contains_key(k) ==> key_info_store@.contains_key(k)
                        && p.store_view()[k] == key_info_store@[k]) && (forall|k: KeyTripleView|
                    key_info_store@.contains_key(k) && k.provider_id != ProviderId::Pkcs11
                        ==> #[trigger] p.store_view().contains_key(k)),
                Option::None => true,
            },
    {
        let mut provider = Pkcs11Provider {
            key_info_store,
            local_ids: Vec::new(),
            logged_sessions_counter: 0,
            backend,
            slot_number,
            user_pin,
        };
        let triples = provider.key_info_store.get_all(ProviderId::Pkcs11);
        let session = match provider.session_new(false) {
            Result::Ok(s) => s,
            Result::Err(..) => {
                return None;
            },
        };
        let mut to_remove: Vec<KeyTriple> = Vec::new();
        let mut i: usize = 0;
        let mut abort = false;
        while i < triples.len() && !abort
            invariant
                0 <= i <= triples@.len(),
                provider.key_info_store.wf(),
                provider.key_info_store@ == key_info_store@,
            decreases triples@.len() - i,
        {
            match get_key_id(&triples[i], &provider.key_info_store) {
                Result::Ok(id) => {
                    match provider.find_key(session.handle, id, KeyPairType::Any) {
                        Result::Ok(..) => {},
                        Result::Err(ResponseStatus::PsaErrorDoesNotExist) => {
                            to_remove.push(triples[i].duplicate());
                        },
                        Result::Err(..) => {
                            abort = true;
                        },
                    }
                },
                Result::Err(..) => {
                    to_remove.push(triples[i].duplicate());
                },
            }
            i = i + 1;
        }
        provider.session_release(session);
        if abort {
            return None;
        }
        let (store, ids) = reconcile_store(&provider.key_info_store, &to_remove);
        provider.key_info_store = store;
        provider.local_ids = ids;
        Some(provider)
    }
}

/// Builder for the PKCS#11 provider: the store, the library path and the
/// slot number are required; the user PIN is optional. Building loads and
/// initialises the token library, then reconciles the store against it.
pub struct Pkcs11ProviderBuilder {
    pub key_info_store: Option<KeyInfoStore>,
    pub pkcs11_library_path: Option<String>,
    pub slot_number: Option<u64>,
    pub user_pin: Option<String>,
}

impl Pkcs11ProviderBuilder {
    pub fn new() -> (r: Pkcs11ProviderBuilder)
        ensures
            r.key_info_store is None,
            r.pkcs11_library_path is None,
            r.slot_number is None,
            r.user_pin is None,
    {
        Pkcs11ProviderBuilder {
            key_info_store: None,
            pkcs11_library_path: None,
            slot_number: None,
            user_pin: None,
        }
    }

    pub fn with_key_id_store(self, key_info_store: KeyInfoStore) -> (r: Pkcs11ProviderBuilder)
        ensures
            r.key_info_store == Some(key_info_store),
            r.pkcs11_library_path == self.pkcs11_library_path,
            r.slot_number == self.slot_number,
            r.user_pin == self.user_pin,
    {
        Pkcs11ProviderBuilder {
            key_info_store: Some(key_info_store),
            pkcs11_library_path: self.pkcs11_library_path,
            slot_number: self.slot_number,
            user_pin: self.user_pin,
        }
    }

    pub fn with_pkcs11_library_path(self, pkcs11_library_path: String) -> (r: Pkcs11ProviderBuilder)
        ensures
            r.pkcs11_library_path == Some(pkcs11_library_path),
            r.key_info_store == self.key_info_store,
            r.slot_number == self.slot_number,
            r.user_pin == self.user_pin,
    {
        Pkcs11ProviderBuilder {
            key_info_store: self.key_info_store,
            pkcs11_library_path: Some(pkcs11_library_path),
            slot_number: self.slot_number,
            user_pin: self.user_pin,
        }
    }

    pub fn with_slot_number(self, slot_number: u64) -> (r: Pkcs11ProviderBuilder)
        ensures
            r.slot_number == Some(slot_number),
            r.key_info_store == self.key_info_store,
            r.pkcs11_library_path == self.pkcs11_library_path,
            r.user_pin == self.user_pin,
    {
        Pkcs11ProviderBuilder {
            key_info_store: self.key_info_store,
            pkcs11_library_path: self.pkcs11_library_path,
            slot_number: Some(slot_number),
            user_pin: self.user_pin,
        }
    }

    pub fn with_user_pin(self, user_pin: Option<String>) -> (r: Pkcs11ProviderBuilder)
        ensures
            r.user_pin == user_pin,
            r.key_info_store == self.key_info_store,
            r.pkcs11_library_path == self.pkcs11_library_path,
            r.slot_number == self.slot_number,
    {
        Pkcs11ProviderBuilder {
            key_info_store: self.key_info_store,
            pkcs11_library_path: self.pkcs11_library_path,
            slot_number: self.slot_number,
            user_pin,
        }
    }

    /// Builds the provider; the store, library path and slot number are
    /// required, and loading, initialising or reconciling can each fail.
    pub fn build(self) -> (r: Option<Pkcs11Provider>)
        requires
            self.key_info_store matches Some(s) ==> s.wf(),
        ensures
            self.key_info_store is None || self.pkcs11_library_path is None || self.slot_number
                is None ==> r is None,
            match r {
                Option::Some(p) => {
                    &&& p.wf()
                    &&& (self.key_info_store matches Some(given) && (forall|k: KeyTripleView|
                        #[trigger] p.store_view().contains_key(k) ==> given@.contains_key(k)
                            && p.store_view()[k] == given@[k]) && (forall|k: KeyTripleView|
                        given@.contains_key(k) && k.provider_id != ProviderId::Pkcs11
                            ==> #[trigger] p.store_view().contains_key(k)))
                },
                Option::None => true,
            },
    {
        let key_info_store = match self.key_info_store {
            Option::Some(s) => s,
            Option::None => {
                return None;
            },
        };
        let library_path = match self.pkcs11_library_path {
            Option::Some(p) => p,
            Option::None => {
                return None;
            },
        };
        let slot_number = match self.slot_number {
            Option::Some(n) => n,
            Option::None => {
                return None;
            },
        };
        let mut backend = match crate::token::ctx_new(library_path.as_str()) {
            Option::Some(c) => c,
            Option::None => {
                return None;
            },
        };
        if !crate::token::ctx_initialize(&mut backend) {
            return None;
        }
        Pkcs11Provider::new(key_info_store, backend, slot_number, self.user_pin)
    }
}

} // verus!
