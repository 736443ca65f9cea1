//! Round-trip and rejection tests of the canonical body serialization.

use parsec_core::codec::{body_to_operation, body_to_result, operation_to_body, result_to_body};
use parsec_core::operations::{
    KeyAlgorithm, KeyAttributes, KeyType, NativeOperation, NativeResult, ProviderInfo, ResultPing,
    UsageFlags,
};
use parsec_core::requests::{AuthType, Opcode, ProviderId, ResponseStatus};

fn attrs() -> KeyAttributes {
    KeyAttributes {
        key_type: KeyType::RsaKeypair,
        algorithm: KeyAlgorithm::RsaPkcs1v15Sign,
        key_size: 2048,
        usage: UsageFlags { sign_hash: true, verify_hash: true, export: false },
    }
}

#[test]
fn generate_key_round_trips() {
    let op = NativeOperation::PsaGenerateKey {
        key_name: "schl\u{00fc}ssel".to_string(),
        attributes: attrs(),
    };
    let body = operation_to_body(&op).unwrap();
    match body_to_operation(&body, Opcode::PsaGenerateKey).unwrap() {
        NativeOperation::PsaGenerateKey { key_name, attributes } => {
            assert_eq!(key_name, "schl\u{00fc}ssel");
            assert_eq!(attributes, attrs());
        }
        _ => panic!("wrong case decoded"),
    }
}

#[test]
fn verify_hash_round_trips() {
    let op = NativeOperation::PsaVerifyHash {
        key_name: "k1".to_string(),
        hash: vec![9, 8, 7],
        signature: vec![0, 255, 1],
    };
    let body = operation_to_body(&op).unwrap();
    match body_to_operation(&body, Opcode::PsaVerifyHash).unwrap() {
        NativeOperation::PsaVerifyHash { key_name, hash, signature } => {
            assert_eq!(key_name, "k1");
            assert_eq!(hash, vec![9, 8, 7]);
            assert_eq!(signature, vec![0, 255, 1]);
        }
        _ => panic!("wrong case decoded"),
    }
}

#[test]
fn generate_random_round_trips() {
    let op = NativeOperation::PsaGenerateRandom { size: 0xDEADBEEF };
    let body = operation_to_body(&op).unwrap();
    match body_to_operation(&body, Opcode::PsaGenerateRandom).unwrap() {
        NativeOperation::PsaGenerateRandom { size } => assert_eq!(size, 0xDEADBEEF),
        _ => panic!("wrong case decoded"),
    }
}

#[test]
fn empty_operations_have_empty_bodies() {
    let body = operation_to_body(&NativeOperation::ListProviders).unwrap();
    assert!(body.is_empty());
    assert!(matches!(
        body_to_operation(&body, Opcode::ListProviders).unwrap(),
        NativeOperation::ListProviders
    ));
}

#[test]
fn trailing_bytes_are_rejected() {
    let mut body = operation_to_body(&NativeOperation::Ping(
        parsec_core::operations::OpPing {},
    ))
    .unwrap();
    body.push(0);
    assert!(matches!(
        body_to_operation(&body, Opcode::Ping),
        Err(ResponseStatus::DeserializingBodyFailed)
    ));
}

#[test]
fn truncated_bodies_are_rejected() {
    let op = NativeOperation::PsaSignHash { key_name: "k".to_string(), hash: vec![1, 2, 3] };
    let mut body = operation_to_body(&op).unwrap();
    body.pop();
    assert!(matches!(
        body_to_operation(&body, Opcode::PsaSignHash),
        Err(ResponseStatus::DeserializingBodyFailed)
    ));
}

#[test]
fn invalid_utf8_names_are_rejected() {
    // A one-byte string whose byte is not valid UTF-8.
    let body = vec![0, 0, 0, 1, 0xFF];
    assert!(matches!(
        body_to_operation(&body, Opcode::PsaDestroyKey),
        Err(ResponseStatus::DeserializingBodyFailed)
    ));
}

#[test]
fn ping_result_round_trips() {
    let res = NativeResult::Ping(ResultPing { supp_version_maj: 1, supp_version_min: 0 });
    let body = result_to_body(&res).unwrap();
    assert_eq!(body, vec![1, 0]);
    match body_to_result(&body, Opcode::Ping).unwrap() {
        NativeResult::Ping(p) => {
            assert_eq!(p.supp_version_maj, 1);
            assert_eq!(p.supp_version_min, 0);
        }
        _ => panic!("wrong case decoded"),
    }
}

#[test]
fn provider_list_result_round_trips() {
    let info = ProviderInfo {
        uuid: vec![1; 16],
        description: "a provider".to_string(),
        vendor: "a vendor".to_string(),
        version_maj: 2,
        version_min: 3,
        version_rev: 4,
        id: ProviderId::Pkcs11,
    };
    let res = NativeResult::ListProviders { providers: vec![info] };
    let body = result_to_body(&res).unwrap();
    match body_to_result(&body, Opcode::ListProviders).unwrap() {
        NativeResult::ListProviders { providers } => {
            assert_eq!(providers.len(), 1);
            assert_eq!(providers[0].uuid, vec![1; 16]);
            assert_eq!(providers[0].description, "a provider");
            assert_eq!(providers[0].vendor, "a vendor");
            assert_eq!(providers[0].version_maj, 2);
            assert_eq!(providers[0].id, ProviderId::Pkcs11);
        }
        _ => panic!("wrong case decoded"),
    }
}

#[test]
fn opcode_and_key_lists_round_trip() {
    let res = NativeResult::ListOpcodes {
        opcodes: vec![Opcode::Ping, Opcode::PsaSignHash, Opcode::PsaGenerateRandom],
    };
    let body = result_to_body(&res).unwrap();
    match body_to_result(&body, Opcode::ListOpcodes).unwrap() {
        NativeResult::ListOpcodes { opcodes } => {
            assert_eq!(opcodes, vec![Opcode::Ping, Opcode::PsaSignHash, Opcode::PsaGenerateRandom]);
        }
        _ => panic!("wrong case decoded"),
    }
    let res2 = NativeResult::ListKeys {
        keys: vec!["alpha".to_string(), "\u{00df}eta".to_string()],
    };
    let body2 = result_to_body(&res2).unwrap();
    match body_to_result(&body2, Opcode::ListKeys).unwrap() {
        NativeResult::ListKeys { keys } => {
            assert_eq!(keys, vec!["alpha".to_string(), "\u{00df}eta".to_string()]);
        }
        _ => panic!("wrong case decoded"),
    }
    let res3 = NativeResult::ListAuthenticators {
        authenticators: vec![AuthType::NoAuth, AuthType::Direct],
    };
    let body3 = result_to_body(&res3).unwrap();
    match body_to_result(&body3, Opcode::ListAuthenticators).unwrap() {
        NativeResult::ListAuthenticators { authenticators } => {
            assert_eq!(authenticators, vec![AuthType::NoAuth, AuthType::Direct]);
        }
        _ => panic!("wrong case decoded"),
    }
}

#[test]
fn unknown_tag_bytes_are_rejected() {
    // An opcode list with a tag byte no opcode carries.
    let body = vec![0, 0, 0, 1, 200];
    assert!(matches!(
        body_to_result(&body, Opcode::ListOpcodes),
        Err(ResponseStatus::DeserializingBodyFailed)
    ));
}
