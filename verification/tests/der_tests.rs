//! Tests of the DER form of RSA public keys.

use parsec_core::der::{rsa_der_decode, rsa_der_encode};

#[test]
fn short_key_round_trips() {
    let modulus = vec![0x00, 0x9A, 0x11, 0x22];
    let exponent = vec![0x01, 0x00, 0x01];
    let der = rsa_der_encode(&modulus, &exponent).unwrap();
    // Sequence of two integers; the modulus keeps a zero sign byte because
    // its top bit is set, and its redundant leading zero is trimmed.
    assert_eq!(der, vec![0x30, 0x0B, 0x02, 0x04, 0x00, 0x9A, 0x11, 0x22, 0x02, 0x03, 0x01, 0x00, 0x01]);
    let (m, e) = rsa_der_decode(&der).unwrap();
    assert_eq!(m, vec![0x9A, 0x11, 0x22]);
    assert_eq!(e, vec![0x01, 0x00, 0x01]);
}

#[test]
fn long_modulus_uses_long_length_form() {
    let mut modulus = vec![0x80u8];
    modulus.extend(std::iter::repeat(0xAB).take(255));
    let exponent = vec![0x01, 0x00, 0x01];
    let der = rsa_der_encode(&modulus, &exponent).unwrap();
    assert_eq!(der[0], 0x30);
    assert_eq!(der[1], 0x82);
    let (m, e) = rsa_der_decode(&der).unwrap();
    assert_eq!(m, modulus);
    assert_eq!(e, exponent);
}

#[test]
fn zero_integer_is_one_zero_byte() {
    let der = rsa_der_encode(&vec![0, 0], &vec![3]).unwrap();
    assert_eq!(der, vec![0x30, 0x06, 0x02, 0x01, 0x00, 0x02, 0x01, 0x03]);
    let (m, e) = rsa_der_decode(&der).unwrap();
    assert_eq!(m, vec![0]);
    assert_eq!(e, vec![3]);
}

#[test]
fn malformed_der_is_rejected() {
    assert!(rsa_der_decode(&vec![]).is_none());
    assert!(rsa_der_decode(&vec![0x31, 0x00]).is_none());
    assert!(rsa_der_decode(&vec![0x30, 0x02, 0x02, 0x00]).is_none());
    let good = rsa_der_encode(&vec![0x42], &vec![0x03]).unwrap();
    let mut trailing = good.clone();
    trailing.push(0);
    assert!(rsa_der_decode(&trailing).is_none());
}
