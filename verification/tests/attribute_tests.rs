//! Tests of the attribute checks guarding key generation and import.

use parsec_core::operations::{KeyAlgorithm, KeyAttributes, KeyType, UsageFlags};
use parsec_core::pkcs11_provider::{generate_attributes_supported, import_attributes_supported};

fn base(key_type: KeyType, algorithm: KeyAlgorithm) -> KeyAttributes {
    KeyAttributes {
        key_type,
        algorithm,
        key_size: 2048,
        usage: UsageFlags { sign_hash: true, verify_hash: true, export: false },
    }
}

#[test]
fn generation_accepts_only_rsa_signing_pairs() {
    assert!(generate_attributes_supported(&base(
        KeyType::RsaKeypair,
        KeyAlgorithm::RsaPkcs1v15Sign
    )));
    // An RSA key pair bound to an AEAD algorithm is not implemented.
    assert!(!generate_attributes_supported(&base(
        KeyType::RsaKeypair,
        KeyAlgorithm::AeadChacha20Poly1305
    )));
    assert!(!generate_attributes_supported(&base(
        KeyType::EccKeypair,
        KeyAlgorithm::RsaPkcs1v15Sign
    )));
}

#[test]
fn import_accepts_only_rsa_public_verification() {
    assert!(import_attributes_supported(&base(
        KeyType::RsaPublicKey,
        KeyAlgorithm::RsaPkcs1v15Sign
    )));
    assert!(!import_attributes_supported(&base(
        KeyType::RsaKeypair,
        KeyAlgorithm::RsaPkcs1v15Sign
    )));
}
