//! Tests of the handler and PKCS#11 provider builders and the verification
//! outcome mapping.

use parsec_core::backend::BackEndHandlerBuilder;
use parsec_core::pkcs11_provider::{
    find_template, generate_priv_template, generate_pub_template, import_template, KeyPairType,
    ATTR_CLASS, ATTR_ID, ATTR_MODULUS_BITS, ATTR_PUBLIC_EXPONENT, ATTR_SIGN, ATTR_TOKEN,
    ATTR_VERIFY, OBJECT_CLASS_PUBLIC_KEY,
};
use parsec_core::token::AttrValue;
use parsec_core::codec::Converter;
use parsec_core::key_info::KeyInfoStore;
use parsec_core::pkcs11_provider::{verify_status_of_outcome, Pkcs11ProviderBuilder};
use parsec_core::requests::{BodyType, ProviderId, ResponseStatus};
use parsec_core::token::VerifyOutcome;

#[test]
fn handler_builder_requires_every_field() {
    assert!(BackEndHandlerBuilder::new().build().is_none());
    assert!(BackEndHandlerBuilder::new()
        .with_converter(Converter::new())
        .with_provider_id(ProviderId::Core)
        .with_content_type(BodyType::Canonical)
        .with_accept_type(BodyType::Canonical)
        .build()
        .is_none());
}

#[test]
fn pkcs11_builder_requires_fields_and_a_loadable_library() {
    assert!(Pkcs11ProviderBuilder::new().build().is_none());
    // All fields present, but no such module can be loaded.
    let built = Pkcs11ProviderBuilder::new()
        .with_key_id_store(KeyInfoStore::new())
        .with_pkcs11_library_path("/nonexistent/libsofthsm2.so".to_string())
        .with_slot_number(0)
        .with_user_pin(Some("123456".to_string()))
        .build();
    assert!(built.is_none());
}

#[test]
fn verification_outcomes_map_to_their_statuses() {
    assert_eq!(verify_status_of_outcome(VerifyOutcome::Valid), Ok(()));
    assert_eq!(
        verify_status_of_outcome(VerifyOutcome::InvalidSignature),
        Err(ResponseStatus::PsaErrorInvalidSignature)
    );
    assert_eq!(
        verify_status_of_outcome(VerifyOutcome::OtherError),
        Err(ResponseStatus::PsaErrorGenericError)
    );
}

#[test]
fn template_builders_spell_the_prescribed_attributes() {
    let priv_t = generate_priv_template(0x01020304);
    assert_eq!(priv_t.len(), 3);
    assert_eq!(priv_t[0].tag, ATTR_SIGN);
    assert!(matches!(priv_t[0].value, AttrValue::Bool(true)));
    assert_eq!(priv_t[1].tag, ATTR_ID);
    match &priv_t[1].value {
        AttrValue::Bytes(b) => assert_eq!(b, &vec![1, 2, 3, 4]),
        _ => panic!("the id must travel as bytes"),
    }
    assert_eq!(priv_t[2].tag, ATTR_TOKEN);

    let pub_t = generate_pub_template(0x01020304, 2048);
    assert_eq!(pub_t.len(), 6);
    assert_eq!(pub_t[0].tag, ATTR_VERIFY);
    assert_eq!(pub_t[2].tag, ATTR_PUBLIC_EXPONENT);
    match &pub_t[2].value {
        AttrValue::Bytes(b) => assert_eq!(b, &vec![0x01, 0x00, 0x01]),
        _ => panic!("the exponent must travel as bytes"),
    }
    assert_eq!(pub_t[3].tag, ATTR_MODULUS_BITS);
    assert!(matches!(pub_t[3].value, AttrValue::Ulong(2048)));

    let imp_t = import_template(7, vec![0xAB], vec![0x03]);
    assert_eq!(imp_t.len(), 7);
    assert_eq!(imp_t[0].tag, ATTR_CLASS);
    assert!(matches!(imp_t[0].value, AttrValue::Ulong(v) if v == OBJECT_CLASS_PUBLIC_KEY));

    let any_t = find_template(7, KeyPairType::Any);
    assert_eq!(any_t.len(), 1);
    assert_eq!(any_t[0].tag, ATTR_ID);
    let pub_find = find_template(7, KeyPairType::PublicKey);
    assert_eq!(pub_find.len(), 2);
    assert_eq!(pub_find[1].tag, ATTR_CLASS);
}
