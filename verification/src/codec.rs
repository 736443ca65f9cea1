//! The canonical body serialization.
//!
//! A request body is the encoding of a [`NativeOperation`] and a response
//! body the encoding of a [`NativeResult`]; which case is meant is given by
//! the opcode of the enclosing header, so bodies carry no tag of their own.
//! Values are encoded with four primitives: a byte, a 32-bit big-endian
//! integer, a length-prefixed byte string, and a length-prefixed UTF-8
//! string. Decoding is the exact inverse; the round trip is proved in
//! [`lemma_operation_round_trip`] and [`lemma_result_round_trip`].

use vstd::prelude::*;
use vstd::utf8::{encode_utf8, decode_utf8, valid_utf8};
use vstd::utf8::{encode_utf8_decode_utf8, encode_utf8_valid_utf8};
use crate::requests::{Opcode, ProviderId, AuthType, ResponseStatus};
use crate::operations::{KeyType, KeyAlgorithm, UsageFlags, KeyAttributes, OpView, op_view_opcode};
use crate::operations::{NativeOperation, NativeResult, ResultView, result_view_opcode, ProviderInfo, ProviderInfoView, OpPing, ResultPing, spec_opcode_of_operation, spec_opcode_of_result};

verus! {

// ---------------------------------------------------------------------------
// Encoding primitives (specification level).
// ---------------------------------------------------------------------------

/// Encoding of one byte.
pub open spec fn enc_u8(x: u8) -> Seq<u8> {
    seq![x]
}

/// The 32-bit integer spelled by four big-endian bytes.
pub open spec fn u32_of_be(b0: u8, b1: u8, b2: u8, b3: u8) -> u32 {
    ((b0 as u32) << 24) | ((b1 as u32) << 16) | ((b2 as u32) << 8) | (b3 as u32)
}

/// Encoding of a 32-bit integer: four big-endian bytes.
pub open spec fn enc_u32(x: u32) -> Seq<u8> {
    seq![(x >> 24) as u8, (x >> 16) as u8, (x >> 8) as u8, x as u8]
}

/// Encoding of a byte string: 32-bit length, then the bytes. Only byte
/// strings whose length fits 32 bits are encodable.
pub open spec fn enc_bytes(b: Seq<u8>) -> Seq<u8> {
    enc_u32(b.len() as u32) + b
}

/// Encoding of a character string: its UTF-8 bytes as a byte string.
pub open spec fn enc_str(c: Seq<char>) -> Seq<u8> {
    enc_bytes(encode_utf8(c))
}

// ---------------------------------------------------------------------------
// Decoding primitives (specification level). Each reader consumes a prefix
// of the input and returns the decoded value and the remaining suffix, or
// nothing if the input is malformed.
// ---------------------------------------------------------------------------

pub open spec fn read_u8(s: Seq<u8>) -> Option<(u8, Seq<u8>)> {
    if s.len() >= 1 {
        Some((s[0], s.skip(1)))
    } else {
        None
    }
}

pub open spec fn read_u32(s: Seq<u8>) -> Option<(u32, Seq<u8>)> {
    if s.len() >= 4 {
        Some((u32_of_be(s[0], s[1], s[2], s[3]), s.skip(4)))
    } else {
        None
    }
}

pub open spec fn read_bytes(s: Seq<u8>) -> Option<(Seq<u8>, Seq<u8>)> {
    match read_u32(s) {
        Option::None => Option::None,
        Option::Some((n, rest)) => {
            if rest.len() >= n {
                Some((rest.take(n as int), rest.skip(n as int)))
            } else {
                None
            }
        },
    }
}

pub open spec fn read_str(s: Seq<u8>) -> Option<(Seq<char>, Seq<u8>)> {
    match read_bytes(s) {
        Option::None => Option::None,
        Option::Some((b, rest)) => {
            if valid_utf8(b) {
                Some((decode_utf8(b), rest))
            } else {
                None
            }
        },
    }
}

// ---------------------------------------------------------------------------
// Round-trip lemmas for the primitives: reading an encoding followed by any
// suffix yields the encoded value and exactly that suffix.
// ---------------------------------------------------------------------------

pub proof fn lemma_read_u8(x: u8, rest: Seq<u8>)
    ensures
        read_u8(enc_u8(x) + rest) == Some((x, rest)),
{
    let s = enc_u8(x) + rest;
    assert(s[0] == x);
    assert(s.skip(1) =~= rest);
}

pub proof fn lemma_read_u32(x: u32, rest: Seq<u8>)
    ensures
        read_u32(enc_u32(x) + rest) == Some((x, rest)),
{
    let s = enc_u32(x) + rest;
    assert(s[0] == (x >> 24) as u8 && s[1] == (x >> 16) as u8 && s[2] == (x >> 8) as u8 && s[3]
        == x as u8);
    assert(((((x >> 24) as u8) as u32) << 24) | ((((x >> 16) as u8) as u32) << 16) | ((((x
        >> 8) as u8) as u32) << 8) | ((x as u8) as u32) == x) by (bit_vector);
    assert(s.skip(4) =~= rest);
}

pub proof fn lemma_read_bytes(b: Seq<u8>, rest: Seq<u8>)
    requires
        b.len() <= u32::MAX,
    ensures
        read_bytes(enc_bytes(b) + rest) == Some((b, rest)),
{
    let s = enc_bytes(b) + rest;
    let n = b.len() as u32;
    assert(s =~= enc_u32(n) + (b + rest));
    lemma_read_u32(n, b + rest);
    assert((b + rest).take(n as int) =~= b);
    assert((b + rest).skip(n as int) =~= rest);
}

pub proof fn lemma_read_str(c: Seq<char>, rest: Seq<u8>)
    requires
        encode_utf8(c).len() <= u32::MAX,
    ensures
        read_str(enc_str(c) + rest) == Some((c, rest)),
{
    broadcast use encode_utf8_valid_utf8, encode_utf8_decode_utf8;

    lemma_read_bytes(encode_utf8(c), rest);
}

// ---------------------------------------------------------------------------
// Executable writers. Each appends the specified encoding to an output
// buffer; the length-prefixed ones report failure instead when the value is
// too long for a 32-bit length.
// ---------------------------------------------------------------------------

pub fn write_u8(out: &mut Vec<u8>, x: u8)
    ensures
        final(out)@ == old(out)@ + enc_u8(x),
{
    out.push(x);
    assert(out@ =~= old(out)@ + enc_u8(x));
}

pub fn write_u32(out: &mut Vec<u8>, x: u32)
    ensures
        final(out)@ == old(out)@ + enc_u32(x),
{
    out.push((x >> 24) as u8);
    out.push((x >> 16) as u8);
    out.push((x >> 8) as u8);
    out.push(x as u8);
    assert(out@ =~= old(out)@ + enc_u32(x));
}

pub fn write_bytes(out: &mut Vec<u8>, b: &Vec<u8>) -> (ok: bool)
    ensures
        ok == (b@.len() <= u32::MAX),
        ok ==> final(out)@ == old(out)@ + enc_bytes(b@),
        !ok ==> final(out)@ == old(out)@,
{
    if b.len() > u32::MAX as usize {
        return false;
    }
    write_u32(out, b.len() as u32);
    out.extend_from_slice(b.as_slice());
    assert(out@ =~= old(out)@ + enc_bytes(b@));
    true
}

pub fn write_str(out: &mut Vec<u8>, s: &String) -> (ok: bool)
    ensures
        ok == (encode_utf8(s@).len() <= u32::MAX),
        ok ==> final(out)@ == old(out)@ + enc_str(s@),
        !ok ==> final(out)@ == old(out)@,
{
    let bytes = s.as_str().as_bytes();
    if bytes.len() > u32::MAX as usize {
        return false;
    }
    write_u32(out, bytes.len() as u32);
    out.extend_from_slice(bytes);
    assert(out@ =~= old(out)@ + enc_str(s@));
    true
}

// ---------------------------------------------------------------------------
// Executable readers. Each reads at a position in the input buffer and
// returns the decoded value and the next position, mirroring the
// specification readers on the suffix starting there.
// ---------------------------------------------------------------------------

pub fn exec_read_u8(s: &Vec<u8>, pos: usize) -> (r: Option<(u8, usize)>)
    requires
        pos <= s@.len(),
    ensures
        match r {
            Option::Some((v, p)) => pos <= p <= s@.len() && read_u8(s@.skip(pos as int)) == Some(
                (v, s@.skip(p as int)),
            ),
            Option::None => read_u8(s@.skip(pos as int)) is None,
        },
{
    if s.len() - pos >= 1 {
        let v = s[pos];
        assert(s@.skip(pos as int)[0] == v);
        assert(s@.skip(pos as int).skip(1) =~= s@.skip(pos as int + 1));
        Some((v, pos + 1))
    } else {
        None
    }
}

pub fn exec_read_u32(s: &Vec<u8>, pos: usize) -> (r: Option<(u32, usize)>)
    requires
        pos <= s@.len(),
    ensures
        match r {
            Option::Some((v, p)) => pos <= p <= s@.len() && read_u32(s@.skip(pos as int)) == Some(
                (v, s@.skip(p as int)),
            ),
            Option::None => read_u32(s@.skip(pos as int)) is None,
        },
{
    if s.len() - pos >= 4 {
        let b0 = s[pos];
        let b1 = s[pos + 1];
        let b2 = s[pos + 2];
        let b3 = s[pos + 3];
        let v = ((b0 as u32) << 24) | ((b1 as u32) << 16) | ((b2 as u32) << 8) | (b3 as u32);
        assert(s@.skip(pos as int)[0] == b0 && s@.skip(pos as int)[1] == b1 && s@.skip(
            pos as int,
        )[2] == b2 && s@.skip(pos as int)[3] == b3);
        assert(s@.skip(pos as int).skip(4) =~= s@.skip(pos as int + 4));
        Some((v, pos + 4))
    } else {
        None
    }
}

pub fn exec_read_bytes(s: &Vec<u8>, pos: usize) -> (r: Option<(Vec<u8>, usize)>)
    requires
        pos <= s@.len(),
    ensures
        match r {
            Option::Some((v, p)) => pos <= p <= s@.len() && read_bytes(s@.skip(pos as int))
                == Some((v@, s@.skip(p as int))),
            Option::None => read_bytes(s@.skip(pos as int)) is None,
        },
{
    match exec_read_u32(s, pos) {
        Option::None => None,
        Option::Some((n, p)) => {
            if s.len() - p >= n as usize {
                let mut v: Vec<u8> = Vec::new();
                let mut i: usize = 0;
                while i < n as usize
                    invariant
                        0 <= i <= n,
                        p + n <= s@.len(),
                        p + n <= usize::MAX,
                        v@ =~= s@.subrange(p as int, p as int + i as int),
                    decreases n as usize - i,
                {
                    v.push(s[p + i]);
                    i = i + 1;
                }
                let tail = Ghost(s@.skip(p as int));
                assert(v@ =~= tail@.take(n as int));
                assert(tail@.skip(n as int) =~= s@.skip(p as int + n as int));
                Some((v, p + n as usize))
            } else {
                assert(s@.skip(p as int).len() < n);
                None
            }
        },
    }
}

/// Turns bytes into the string they UTF-8 encode, or nothing if they are not
/// valid UTF-8. Relies on `String::from_utf8`: it succeeds exactly on valid
/// UTF-8 input and the returned string's UTF-8 encoding is that input.
#[verifier::external_body]
fn string_from_utf8(v: Vec<u8>) -> (r: Option<String>)
    ensures
        match r {
            Option::Some(st) => valid_utf8(v@) && encode_utf8(st@) == v@,
            Option::None => !valid_utf8(v@),
        },
{
    String::from_utf8(v).ok()
}

pub fn exec_read_str(s: &Vec<u8>, pos: usize) -> (r: Option<(String, usize)>)
    requires
        pos <= s@.len(),
    ensures
        match r {
            Option::Some((v, p)) => pos <= p <= s@.len() && read_str(s@.skip(pos as int)) == Some(
                (v@, s@.skip(p as int)),
            ),
            Option::None => read_str(s@.skip(pos as int)) is None,
        },
{
    match exec_read_bytes(s, pos) {
        Option::None => None,
        Option::Some((b, p)) => {
            let ghost bytes = b@;
            match string_from_utf8(b) {
                Option::None => None,
                Option::Some(st) => {
                    proof {
                        encode_utf8_decode_utf8(st@);
                    }
                    Some((st, p))
                },
            }
        },
    }
}


// ---------------------------------------------------------------------------
// Tag bytes for the closed enumerations. Every `..._of_tag` is the exact
// inverse of the matching `..._tag`.
// ---------------------------------------------------------------------------

pub open spec fn keytype_tag(k: KeyType) -> u8 {
    match k {
        KeyType::RsaKeypair => 0,
        KeyType::RsaPublicKey => 1,
        KeyType::EccKeypair => 2,
        KeyType::Aes => 3,
    }
}

pub open spec fn keytype_of_tag(x: u8) -> Option<KeyType> {
    if x == 0 {
        Some(KeyType::RsaKeypair)
    } else if x == 1 {
        Some(KeyType::RsaPublicKey)
    } else if x == 2 {
        Some(KeyType::EccKeypair)
    } else if x == 3 {
        Some(KeyType::Aes)
    } else {
        None
    }
}

pub open spec fn alg_tag(a: KeyAlgorithm) -> u8 {
    match a {
        KeyAlgorithm::RsaPkcs1v15Sign => 0,
        KeyAlgorithm::EcdsaSha256 => 1,
        KeyAlgorithm::AeadChacha20Poly1305 => 2,
        KeyAlgorithm::HashSha256 => 3,
    }
}

pub open spec fn alg_of_tag(x: u8) -> Option<KeyAlgorithm> {
    if x == 0 {
        Some(KeyAlgorithm::RsaPkcs1v15Sign)
    } else if x == 1 {
        Some(KeyAlgorithm::EcdsaSha256)
    } else if x == 2 {
        Some(KeyAlgorithm::AeadChacha20Poly1305)
    } else if x == 3 {
        Some(KeyAlgorithm::HashSha256)
    } else {
        None
    }
}

pub open spec fn provider_tag(p: ProviderId) -> u8 {
    match p {
        ProviderId::Core => 0,
        ProviderId::Pkcs11 => 1,
    }
}

pub open spec fn provider_of_tag(x: u8) -> Option<ProviderId> {
    if x == 0 {
        Some(ProviderId::Core)
    } else if x == 1 {
        Some(ProviderId::Pkcs11)
    } else {
        None
    }
}

pub open spec fn auth_tag(a: AuthType) -> u8 {
    match a {
        AuthType::NoAuth => 0,
        AuthType::Direct => 1,
    }
}

pub open spec fn auth_of_tag(x: u8) -> Option<AuthType> {
    if x == 0 {
        Some(AuthType::NoAuth)
    } else if x == 1 {
        Some(AuthType::Direct)
    } else {
        None
    }
}

pub open spec fn opcode_tag(op: Opcode) -> u8 {
    match op {
        Opcode::Ping => 0,
        Opcode::ListProviders => 1,
        Opcode::ListOpcodes => 2,
        Opcode::ListAuthenticators => 3,
        Opcode::ListKeys => 4,
        Opcode::PsaGenerateKey => 5,
        Opcode::PsaImportKey => 6,
        Opcode::PsaExportPublicKey => 7,
        Opcode::PsaExportKey => 8,
        Opcode::PsaDestroyKey => 9,
        Opcode::PsaSignHash => 10,
        Opcode::PsaVerifyHash => 11,
        Opcode::PsaAsymmetricEncrypt => 12,
        Opcode::PsaAsymmetricDecrypt => 13,
        Opcode::PsaAeadEncrypt => 14,
        Opcode::PsaAeadDecrypt => 15,
        Opcode::PsaRawKeyAgreement => 16,
        Opcode::PsaHashCompute => 17,
        Opcode::PsaHashCompare => 18,
        Opcode::PsaGenerateRandom => 19,
    }
}

pub open spec fn opcode_of_tag(x: u8) -> Option<Opcode> {
    if x == 0 {
        Some(Opcode::Ping)
    } else if x == 1 {
        Some(Opcode::ListProviders)
    } else if x == 2 {
        Some(Opcode::ListOpcodes)
    } else if x == 3 {
        Some(Opcode::ListAuthenticators)
    } else if x == 4 {
        Some(Opcode::ListKeys)
    } else if x == 5 {
        Some(Opcode::PsaGenerateKey)
    } else if x == 6 {
        Some(Opcode::PsaImportKey)
    } else if x == 7 {
        Some(Opcode::PsaExportPublicKey)
    } else if x == 8 {
        Some(Opcode::PsaExportKey)
    } else if x == 9 {
        Some(Opcode::PsaDestroyKey)
    } else if x == 10 {
        Some(Opcode::PsaSignHash)
    } else if x == 11 {
        Some(Opcode::PsaVerifyHash)
    } else if x == 12 {
        Some(Opcode::PsaAsymmetricEncrypt)
    } else if x == 13 {
        Some(Opcode::PsaAsymmetricDecrypt)
    } else if x == 14 {
        Some(Opcode::PsaAeadEncrypt)
    } else if x == 15 {
        Some(Opcode::PsaAeadDecrypt)
    } else if x == 16 {
        Some(Opcode::PsaRawKeyAgreement)
    } else if x == 17 {
        Some(Opcode::PsaHashCompute)
    } else if x == 18 {
        Some(Opcode::PsaHashCompare)
    } else if x == 19 {
        Some(Opcode::PsaGenerateRandom)
    } else {
        None
    }
}

pub open spec fn bool_byte(b: bool) -> u8 {
    if b {
        1
    } else {
        0
    }
}

pub open spec fn bool_of_byte(x: u8) -> Option<bool> {
    if x == 0 {
        Some(false)
    } else if x == 1 {
        Some(true)
    } else {
        None
    }
}

/// Every tag round-trips through its inverse.
pub proof fn lemma_tags_invert(k: KeyType, a: KeyAlgorithm, p: ProviderId, t: AuthType, op: Opcode, b: bool)
    ensures
        keytype_of_tag(keytype_tag(k)) == Some(k),
        alg_of_tag(alg_tag(a)) == Some(a),
        provider_of_tag(provider_tag(p)) == Some(p),
        auth_of_tag(auth_tag(t)) == Some(t),
        opcode_of_tag(opcode_tag(op)) == Some(op),
        bool_of_byte(bool_byte(b)) == Some(b),
{
}

// Executable twins of the tag functions.

pub fn keytype_to_u8(k: KeyType) -> (r: u8)
    ensures
        r == keytype_tag(k),
{
    match k {
        KeyType::RsaKeypair => 0,
        KeyType::RsaPublicKey => 1,
        KeyType::EccKeypair => 2,
        KeyType::Aes => 3,
    }
}

pub fn keytype_from_u8(x: u8) -> (r: Option<KeyType>)
    ensures
        r == keytype_of_tag(x),
{
    match x {
        0 => Some(KeyType::RsaKeypair),
        1 => Some(KeyType::RsaPublicKey),
        2 => Some(KeyType::EccKeypair),
        3 => Some(KeyType::Aes),
        _ => None,
    }
}

pub fn alg_to_u8(a: KeyAlgorithm) -> (r: u8)
    ensures
        r == alg_tag(a),
{
    match a {
        KeyAlgorithm::RsaPkcs1v15Sign => 0,
        KeyAlgorithm::EcdsaSha256 => 1,
        KeyAlgorithm::AeadChacha20Poly1305 => 2,
        KeyAlgorithm::HashSha256 => 3,
    }
}

pub fn alg_from_u8(x: u8) -> (r: Option<KeyAlgorithm>)
    ensures
        r == alg_of_tag(x),
{
    match x {
        0 => Some(KeyAlgorithm::RsaPkcs1v15Sign),
        1 => Some(KeyAlgorithm::EcdsaSha256),
        2 => Some(KeyAlgorithm::AeadChacha20Poly1305),
        3 => Some(KeyAlgorithm::HashSha256),
        _ => None,
    }
}

pub fn provider_to_u8(p: ProviderId) -> (r: u8)
    ensures
        r == provider_tag(p),
{
    match p {
        ProviderId::Core => 0,
        ProviderId::Pkcs11 => 1,
    }
}

pub fn provider_from_u8(x: u8) -> (r: Option<ProviderId>)
    ensures
        r == provider_of_tag(x),
{
    match x {
        0 => Some(ProviderId::Core),
        1 => Some(ProviderId::Pkcs11),
        _ => None,
    }
}

pub fn auth_to_u8(a: AuthType) -> (r: u8)
    ensures
        r == auth_tag(a),
{
    match a {
        AuthType::NoAuth => 0,
        AuthType::Direct => 1,
    }
}

pub fn auth_from_u8(x: u8) -> (r: Option<AuthType>)
    ensures
        r == auth_of_tag(x),
{
    match x {
        0 => Some(AuthType::NoAuth),
        1 => Some(AuthType::Direct),
        _ => None,
    }
}

pub fn opcode_to_u8(op: Opcode) -> (r: u8)
    ensures
        r == opcode_tag(op),
{
    match op {
        Opcode::Ping => 0,
        Opcode::ListProviders => 1,
        Opcode::ListOpcodes => 2,
        Opcode::ListAuthenticators => 3,
        Opcode::ListKeys => 4,
        Opcode::PsaGenerateKey => 5,
        Opcode::PsaImportKey => 6,
        Opcode::PsaExportPublicKey => 7,
        Opcode::PsaExportKey => 8,
        Opcode::PsaDestroyKey => 9,
        Opcode::PsaSignHash => 10,
        Opcode::PsaVerifyHash => 11,
        Opcode::PsaAsymmetricEncrypt => 12,
        Opcode::PsaAsymmetricDecrypt => 13,
        Opcode::PsaAeadEncrypt => 14,
        Opcode::PsaAeadDecrypt => 15,
        Opcode::PsaRawKeyAgreement => 16,
        Opcode::PsaHashCompute => 17,
        Opcode::PsaHashCompare => 18,
        Opcode::PsaGenerateRandom => 19,
    }
}

pub fn opcode_from_u8(x: u8) -> (r: Option<Opcode>)
    ensures
        r == opcode_of_tag(x),
{
    match x {
        0 => Some(Opcode::Ping),
        1 => Some(Opcode::ListProviders),
        2 => Some(Opcode::ListOpcodes),
        3 => Some(Opcode::ListAuthenticators),
        4 => Some(Opcode::ListKeys),
        5 => Some(Opcode::PsaGenerateKey),
        6 => Some(Opcode::PsaImportKey),
        7 => Some(Opcode::PsaExportPublicKey),
        8 => Some(Opcode::PsaExportKey),
        9 => Some(Opcode::PsaDestroyKey),
        10 => Some(Opcode::PsaSignHash),
        11 => Some(Opcode::PsaVerifyHash),
        12 => Some(Opcode::PsaAsymmetricEncrypt),
        13 => Some(Opcode::PsaAsymmetricDecrypt),
        14 => Some(Opcode::PsaAeadEncrypt),
        15 => Some(Opcode::PsaAeadDecrypt),
        16 => Some(Opcode::PsaRawKeyAgreement),
        17 => Some(Opcode::PsaHashCompute),
        18 => Some(Opcode::PsaHashCompare),
        19 => Some(Opcode::PsaGenerateRandom),
        _ => None,
    }
}

pub fn bool_to_u8(b: bool) -> (r: u8)
    ensures
        r == bool_byte(b),
{
    if b {
        1
    } else {
        0
    }
}

pub fn bool_from_u8(x: u8) -> (r: Option<bool>)
    ensures
        r == bool_of_byte(x),
{
    match x {
        0 => Some(false),
        1 => Some(true),
        _ => None,
    }
}

// ---------------------------------------------------------------------------
// Key attributes: a fixed-width record of two tags, the key size, and three
// usage flags.
// ---------------------------------------------------------------------------

pub open spec fn enc_attributes(a: KeyAttributes) -> Seq<u8> {
    enc_u8(keytype_tag(a.key_type)) + enc_u8(alg_tag(a.algorithm)) + enc_u32(a.key_size) + enc_u8(
        bool_byte(a.usage.sign_hash),
    ) + enc_u8(bool_byte(a.usage.verify_hash)) + enc_u8(bool_byte(a.usage.export))
}

pub open spec fn read_attributes(s: Seq<u8>) -> Option<(KeyAttributes, Seq<u8>)> {
    match read_u8(s) {
        Option::None => Option::None,
        Option::Some((kt, s)) => match keytype_of_tag(kt) {
            Option::None => Option::None,
            Option::Some(key_type) => match read_u8(s) {
                Option::None => Option::None,
                Option::Some((al, s)) => match alg_of_tag(al) {
                    Option::None => Option::None,
                    Option::Some(algorithm) => match read_u32(s) {
                        Option::None => Option::None,
                        Option::Some((key_size, s)) => match read_u8(s) {
                            Option::None => Option::None,
                            Option::Some((b0, s)) => match bool_of_byte(b0) {
                                Option::None => Option::None,
                                Option::Some(sign_hash) => match read_u8(s) {
                                    Option::None => Option::None,
                                    Option::Some((b1, s)) => match bool_of_byte(b1) {
                                        Option::None => Option::None,
                                        Option::Some(verify_hash) => match read_u8(s) {
                                            Option::None => Option::None,
                                            Option::Some((b2, s)) => match bool_of_byte(b2) {
                                                Option::None => Option::None,
                                                Option::Some(export) => Some(
                                                    (
                                                        KeyAttributes {
                                                            key_type,
                                                            algorithm,
                                                            key_size,
                                                            usage: UsageFlags {
                                                                sign_hash,
                                                                verify_hash,
                                                                export,
                                                            },
                                                        },
                                                        s,
                                                    ),
                                                ),
                                            },
                                        },
                                    },
                                },
                            },
                        },
                    },
                },
            },
        },
    }
}

#[verifier::rlimit(50)]
pub proof fn lemma_read_attributes(a: KeyAttributes, rest: Seq<u8>)
    ensures
        read_attributes(enc_attributes(a) + rest) == Some((a, rest)),
{
    let t5 = enc_u8(bool_byte(a.usage.export)) + rest;
    let t4 = enc_u8(bool_byte(a.usage.verify_hash)) + t5;
    let t3 = enc_u8(bool_byte(a.usage.sign_hash)) + t4;
    let t2 = enc_u32(a.key_size) + t3;
    let t1 = enc_u8(alg_tag(a.algorithm)) + t2;
    assert(enc_attributes(a) + rest =~= enc_u8(keytype_tag(a.key_type)) + t1);
    lemma_read_u8(keytype_tag(a.key_type), t1);
    lemma_read_u8(alg_tag(a.algorithm), t2);
    lemma_read_u32(a.key_size, t3);
    lemma_read_u8(bool_byte(a.usage.sign_hash), t4);
    lemma_read_u8(bool_byte(a.usage.verify_hash), t5);
    lemma_read_u8(bool_byte(a.usage.export), rest);
}

pub fn write_attributes(out: &mut Vec<u8>, a: &KeyAttributes)
    ensures
        final(out)@ == old(out)@ + enc_attributes(*a),
{
    write_u8(out, keytype_to_u8(a.key_type));
    write_u8(out, alg_to_u8(a.algorithm));
    write_u32(out, a.key_size);
    write_u8(out, bool_to_u8(a.usage.sign_hash));
    write_u8(out, bool_to_u8(a.usage.verify_hash));
    write_u8(out, bool_to_u8(a.usage.export));
    assert(out@ =~= old(out)@ + enc_attributes(*a));
}

pub fn exec_read_attributes(s: &Vec<u8>, pos: usize) -> (r: Option<(KeyAttributes, usize)>)
    requires
        pos <= s@.len(),
    ensures
        match r {
            Option::Some((v, p)) => pos <= p <= s@.len() && read_attributes(s@.skip(pos as int))
                == Some((v, s@.skip(p as int))),
            Option::None => read_attributes(s@.skip(pos as int)) is None,
        },
{
    let (kt, p1) = match exec_read_u8(s, pos) {
        Option::Some(x) => x,
        Option::None => {
            return None;
        },
    };
    let key_type = match keytype_from_u8(kt) {
        Option::Some(x) => x,
        Option::None => {
            return None;
        },
    };
    let (al, p2) = match exec_read_u8(s, p1) {
        Option::Some(x) => x,
        Option::None => {
            return None;
        },
    };
    let algorithm = match alg_from_u8(al) {
        Option::Some(x) => x,
        Option::None => {
            return None;
        },
    };
    let (key_size, p3) = match exec_read_u32(s, p2) {
        Option::Some(x) => x,
        Option::None => {
            return None;
        },
    };
    let (b0, p4) = match exec_read_u8(s, p3) {
        Option::Some(x) => x,
        Option::None => {
            return None;
        },
    };
    let sign_hash = match bool_from_u8(b0) {
        Option::Some(x) => x,
        Option::None => {
            return None;
        },
    };
    let (b1, p5) = match exec_read_u8(s, p4) {
        Option::Some(x) => x,
        Option::None => {
            return None;
        },
    };
    let verify_hash = match bool_from_u8(b1) {
        Option::Some(x) => x,
        Option::None => {
            return None;
        },
    };
    let (b2, p6) = match exec_read_u8(s, p5) {
        Option::Some(x) => x,
        Option::None => {
            return None;
        },
    };
    let export = match bool_from_u8(b2) {
        Option::Some(x) => x,
        Option::None => {
            return None;
        },
    };
    Some(
        (
            KeyAttributes {
                key_type,
                algorithm,
                key_size,
                usage: UsageFlags { sign_hash, verify_hash, export },
            },
            p6,
        ),
    )
}



// ---------------------------------------------------------------------------
// Operation bodies. The encoding of each case is the concatenation of its
// field encodings; the opcode is carried by the enclosing header, so the
// decoder is parameterized by it. A decode only succeeds when the whole body
// is consumed.
// ---------------------------------------------------------------------------

/// Whether a string fits the 32-bit length prefix of the encoding.
pub open spec fn str_encodable(c: Seq<char>) -> bool {
    encode_utf8(c).len() <= u32::MAX
}

/// Whether a byte string fits the 32-bit length prefix of the encoding.
pub open spec fn bytes_encodable(b: Seq<u8>) -> bool {
    b.len() <= u32::MAX
}

/// Whether an operation can be encoded: every variable-length field fits its
/// length prefix.
pub open spec fn op_encodable(v: OpView) -> bool {
    match v {
        OpView::Ping => true,
        OpView::ListProviders => true,
        OpView::ListOpcodes => true,
        OpView::ListAuthenticators => true,
        OpView::ListKeys => true,
        OpView::PsaGenerateKey { key_name, .. } => str_encodable(key_name),
        OpView::PsaImportKey { key_name, data, .. } => str_encodable(key_name) && bytes_encodable(
            data,
        ),
        OpView::PsaExportPublicKey { key_name } => str_encodable(key_name),
        OpView::PsaExportKey { key_name } => str_encodable(key_name),
        OpView::PsaDestroyKey { key_name } => str_encodable(key_name),
        OpView::PsaSignHash { key_name, hash } => str_encodable(key_name) && bytes_encodable(hash),
        OpView::PsaVerifyHash { key_name, hash, signature } => str_encodable(key_name)
            && bytes_encodable(hash) && bytes_encodable(signature),
        OpView::PsaAsymmetricEncrypt { key_name, plaintext } => str_encodable(key_name)
            && bytes_encodable(plaintext),
        OpView::PsaAsymmetricDecrypt { key_name, ciphertext } => str_encodable(key_name)
            && bytes_encodable(ciphertext),
        OpView::PsaAeadEncrypt { key_name, nonce, plaintext } => str_encodable(key_name)
            && bytes_encodable(nonce) && bytes_encodable(plaintext),
        OpView::PsaAeadDecrypt { key_name, nonce, ciphertext } => str_encodable(key_name)
            && bytes_encodable(nonce) && bytes_encodable(ciphertext),
        OpView::PsaRawKeyAgreement { private_key_name, peer_key } => str_encodable(
            private_key_name,
        ) && bytes_encodable(peer_key),
        OpView::PsaHashCompute { input } => bytes_encodable(input),
        OpView::PsaHashCompare { input, hash } => bytes_encodable(input) && bytes_encodable(hash),
        OpView::PsaGenerateRandom { .. } => true,
    }
}

/// The canonical body of an operation.
pub open spec fn spec_operation_to_body(v: OpView) -> Seq<u8> {
    match v {
        OpView::Ping => Seq::<u8>::empty(),
        OpView::ListProviders => Seq::<u8>::empty(),
        OpView::ListOpcodes => Seq::<u8>::empty(),
        OpView::ListAuthenticators => Seq::<u8>::empty(),
        OpView::ListKeys => Seq::<u8>::empty(),
        OpView::PsaGenerateKey { key_name, attributes } => enc_str(key_name) + enc_attributes(
            attributes,
        ),
        OpView::PsaImportKey { key_name, attributes, data } => enc_str(key_name) + enc_attributes(
            attributes,
        ) + enc_bytes(data),
        OpView::PsaExportPublicKey { key_name } => enc_str(key_name),
        OpView::PsaExportKey { key_name } => enc_str(key_name),
        OpView::PsaDestroyKey { key_name } => enc_str(key_name),
        OpView::PsaSignHash { key_name, hash } => enc_str(key_name) + enc_bytes(hash),
        OpView::PsaVerifyHash { key_name, hash, signature } => enc_str(key_name) + enc_bytes(hash)
            + enc_bytes(signature),
        OpView::PsaAsymmetricEncrypt { key_name, plaintext } => enc_str(key_name) + enc_bytes(
            plaintext,
        ),
        OpView::PsaAsymmetricDecrypt { key_name, ciphertext } => enc_str(key_name) + enc_bytes(
            ciphertext,
        ),
        OpView::PsaAeadEncrypt { key_name, nonce, plaintext } => enc_str(key_name) + enc_bytes(
            nonce,
        ) + enc_bytes(plaintext),
        OpView::PsaAeadDecrypt { key_name, nonce, ciphertext } => enc_str(key_name) + enc_bytes(
            nonce,
        ) + enc_bytes(ciphertext),
        OpView::PsaRawKeyAgreement { private_key_name, peer_key } => enc_str(private_key_name)
            + enc_bytes(peer_key),
        OpView::PsaHashCompute { input } => enc_bytes(input),
        OpView::PsaHashCompare { input, hash } => enc_bytes(input) + enc_bytes(hash),
        OpView::PsaGenerateRandom { size } => enc_u32(size),
    }
}

// Per-opcode body decoders for the cases that carry a payload.

pub open spec fn dec_generate_key(s: Seq<u8>) -> Option<OpView> {
    match read_str(s) {
        Option::None => Option::None,
        Option::Some((key_name, s)) => match read_attributes(s) {
            Option::None => Option::None,
            Option::Some((attributes, s)) => if s.len() == 0 {
                Some(OpView::PsaGenerateKey { key_name, attributes })
            } else {
                None
            },
        },
    }
}

pub open spec fn dec_import_key(s: Seq<u8>) -> Option<OpView> {
    match read_str(s) {
        Option::None => Option::None,
        Option::Some((key_name, s)) => match read_attributes(s) {
            Option::None => Option::None,
            Option::Some((attributes, s)) => match read_bytes(s) {
                Option::None => Option::None,
                Option::Some((data, s)) => if s.len() == 0 {
                    Some(OpView::PsaImportKey { key_name, attributes, data })
                } else {
                    None
                },
            },
        },
    }
}

pub open spec fn dec_name_only(s: Seq<u8>) -> Option<(Seq<char>, Seq<u8>)> {
    match read_str(s) {
        Option::None => Option::None,
        Option::Some((key_name, s)) => if s.len() == 0 {
            Some((key_name, s))
        } else {
            None
        },
    }
}

pub open spec fn dec_name_bytes(s: Seq<u8>) -> Option<(Seq<char>, Seq<u8>)> {
    match read_str(s) {
        Option::None => Option::None,
        Option::Some((key_name, s)) => match read_bytes(s) {
            Option::None => Option::None,
            Option::Some((b, s)) => if s.len() == 0 {
                Some((key_name, b))
            } else {
                None
            },
        },
    }
}

pub open spec fn dec_name_bytes_bytes(s: Seq<u8>) -> Option<(Seq<char>, Seq<u8>, Seq<u8>)> {
    match read_str(s) {
        Option::None => Option::None,
        Option::Some((key_name, s)) => match read_bytes(s) {
            Option::None => Option::None,
            Option::Some((b0, s)) => match read_bytes(s) {
                Option::None => Option::None,
                Option::Some((b1, s)) => if s.len() == 0 {
                    Some((key_name, b0, b1))
                } else {
                    None
                },
            },
        },
    }
}

pub open spec fn dec_bytes_only(s: Seq<u8>) -> Option<Seq<u8>> {
    match read_bytes(s) {
        Option::None => Option::None,
        Option::Some((b, s)) => if s.len() == 0 {
            Some(b)
        } else {
            None
        },
    }
}

pub open spec fn dec_bytes_bytes(s: Seq<u8>) -> Option<(Seq<u8>, Seq<u8>)> {
    match read_bytes(s) {
        Option::None => Option::None,
        Option::Some((b0, s)) => match read_bytes(s) {
            Option::None => Option::None,
            Option::Some((b1, s)) => if s.len() == 0 {
                Some((b0, b1))
            } else {
                None
            },
        },
    }
}

pub open spec fn dec_u32_only(s: Seq<u8>) -> Option<u32> {
    match read_u32(s) {
        Option::None => Option::None,
        Option::Some((x, s)) => if s.len() == 0 {
            Some(x)
        } else {
            None
        },
    }
}

/// Decoding a body into the operation named by the header opcode.
pub open spec fn spec_body_to_operation(s: Seq<u8>, opcode: Opcode) -> Option<OpView> {
    match opcode {
        Opcode::Ping => if s.len() == 0 {
            Some(OpView::Ping)
        } else {
            None
        },
        Opcode::ListProviders => if s.len() == 0 {
            Some(OpView::ListProviders)
        } else {
            None
        },
        Opcode::ListOpcodes => if s.len() == 0 {
            Some(OpView::ListOpcodes)
        } else {
            None
        },
        Opcode::ListAuthenticators => if s.len() == 0 {
            Some(OpView::ListAuthenticators)
        } else {
            None
        },
        Opcode::ListKeys => if s.len() == 0 {
            Some(OpView::ListKeys)
        } else {
            None
        },
        Opcode::PsaGenerateKey => dec_generate_key(s),
        Opcode::PsaImportKey => dec_import_key(s),
        Opcode::PsaExportPublicKey => match dec_name_only(s) {
            Option::None => Option::None,
            Option::Some((key_name, _)) => Some(OpView::PsaExportPublicKey { key_name }),
        },
        Opcode::PsaExportKey => match dec_name_only(s) {
            Option::None => Option::None,
            Option::Some((key_name, _)) => Some(OpView::PsaExportKey { key_name }),
        },
        Opcode::PsaDestroyKey => match dec_name_only(s) {
            Option::None => Option::None,
            Option::Some((key_name, _)) => Some(OpView::PsaDestroyKey { key_name }),
        },
        Opcode::PsaSignHash => match dec_name_bytes(s) {
            Option::None => Option::None,
            Option::Some((key_name, hash)) => Some(OpView::PsaSignHash { key_name, hash }),
        },
        Opcode::PsaVerifyHash => match dec_name_bytes_bytes(s) {
            Option::None => Option::None,
            Option::Some((key_name, hash, signature)) => Some(
                OpView::PsaVerifyHash { key_name, hash, signature },
            ),
        },
        Opcode::PsaAsymmetricEncrypt => match dec_name_bytes(s) {
            Option::None => Option::None,
            Option::Some((key_name, plaintext)) => Some(
                OpView::PsaAsymmetricEncrypt { key_name, plaintext },
            ),
        },
        Opcode::PsaAsymmetricDecrypt => match dec_name_bytes(s) {
            Option::None => Option::None,
            Option::Some((key_name, ciphertext)) => Some(
                OpView::PsaAsymmetricDecrypt { key_name, ciphertext },
            ),
        },
        Opcode::PsaAeadEncrypt => match dec_name_bytes_bytes(s) {
            Option::None => Option::None,
            Option::Some((key_name, nonce, plaintext)) => Some(
                OpView::PsaAeadEncrypt { key_name, nonce, plaintext },
            ),
        },
        Opcode::PsaAeadDecrypt => match dec_name_bytes_bytes(s) {
            Option::None => Option::None,
            Option::Some((key_name, nonce, ciphertext)) => Some(
                OpView::PsaAeadDecrypt { key_name, nonce, ciphertext },
            ),
        },
        Opcode::PsaRawKeyAgreement => match dec_name_bytes(s) {
            Option::None => Option::None,
            Option::Some((private_key_name, peer_key)) => Some(
                OpView::PsaRawKeyAgreement { private_key_name, peer_key },
            ),
        },
        Opcode::PsaHashCompute => match dec_bytes_only(s) {
            Option::None => Option::None,
            Option::Some(input) => Some(OpView::PsaHashCompute { input }),
        },
        Opcode::PsaHashCompare => match dec_bytes_bytes(s) {
            Option::None => Option::None,
            Option::Some((input, hash)) => Some(OpView::PsaHashCompare { input, hash }),
        },
        Opcode::PsaGenerateRandom => match dec_u32_only(s) {
            Option::None => Option::None,
            Option::Some(size) => Some(OpView::PsaGenerateRandom { size }),
        },
    }
}

// Round trips of each payload shape.

proof fn lemma_rt_name_only(k: Seq<char>)
    requires
        str_encodable(k),
    ensures
        dec_name_only(enc_str(k)) == Some((k, Seq::<u8>::empty())),
{
    let empty = Seq::<u8>::empty();
    assert(enc_str(k) =~= enc_str(k) + empty);
    lemma_read_str(k, empty);
}

proof fn lemma_rt_name_bytes(k: Seq<char>, b: Seq<u8>)
    requires
        str_encodable(k),
        bytes_encodable(b),
    ensures
        dec_name_bytes(enc_str(k) + enc_bytes(b)) == Some((k, b)),
{
    let empty = Seq::<u8>::empty();
    let t1 = enc_bytes(b);
    lemma_read_str(k, t1);
    assert(t1 =~= enc_bytes(b) + empty);
    lemma_read_bytes(b, empty);
}

proof fn lemma_rt_name_bytes_bytes(k: Seq<char>, b0: Seq<u8>, b1: Seq<u8>)
    requires
        str_encodable(k),
        bytes_encodable(b0),
        bytes_encodable(b1),
    ensures
        dec_name_bytes_bytes(enc_str(k) + enc_bytes(b0) + enc_bytes(b1)) == Some((k, b0, b1)),
{
    let empty = Seq::<u8>::empty();
    let t2 = enc_bytes(b1);
    let t1 = enc_bytes(b0) + t2;
    assert(enc_str(k) + enc_bytes(b0) + enc_bytes(b1) =~= enc_str(k) + t1);
    lemma_read_str(k, t1);
    lemma_read_bytes(b0, t2);
    assert(t2 =~= enc_bytes(b1) + empty);
    lemma_read_bytes(b1, empty);
}

proof fn lemma_rt_bytes_only(b: Seq<u8>)
    requires
        bytes_encodable(b),
    ensures
        dec_bytes_only(enc_bytes(b)) == Some(b),
{
    let empty = Seq::<u8>::empty();
    assert(enc_bytes(b) =~= enc_bytes(b) + empty);
    lemma_read_bytes(b, empty);
}

proof fn lemma_rt_bytes_bytes(b0: Seq<u8>, b1: Seq<u8>)
    requires
        bytes_encodable(b0),
        bytes_encodable(b1),
    ensures
        dec_bytes_bytes(enc_bytes(b0) + enc_bytes(b1)) == Some((b0, b1)),
{
    let empty = Seq::<u8>::empty();
    let t1 = enc_bytes(b1);
    lemma_read_bytes(b0, t1);
    assert(t1 =~= enc_bytes(b1) + empty);
    lemma_read_bytes(b1, empty);
}

proof fn lemma_rt_u32_only(x: u32)
    ensures
        dec_u32_only(enc_u32(x)) == Some(x),
{
    let empty = Seq::<u8>::empty();
    assert(enc_u32(x) =~= enc_u32(x) + empty);
    lemma_read_u32(x, empty);
}

proof fn lemma_rt_generate_key(k: Seq<char>, a: KeyAttributes)
    requires
        str_encodable(k),
    ensures
        dec_generate_key(enc_str(k) + enc_attributes(a)) == Some(
            OpView::PsaGenerateKey { key_name: k, attributes: a },
        ),
{
    let empty = Seq::<u8>::empty();
    let t1 = enc_attributes(a);
    lemma_read_str(k, t1);
    assert(t1 =~= enc_attributes(a) + empty);
    lemma_read_attributes(a, empty);
}

proof fn lemma_rt_import_key(k: Seq<char>, a: KeyAttributes, d: Seq<u8>)
    requires
        str_encodable(k),
        bytes_encodable(d),
    ensures
        dec_import_key(enc_str(k) + enc_attributes(a) + enc_bytes(d)) == Some(
            OpView::PsaImportKey { key_name: k, attributes: a, data: d },
        ),
{
    let empty = Seq::<u8>::empty();
    let t2 = enc_bytes(d);
    let t1 = enc_attributes(a) + t2;
    assert(enc_str(k) + enc_attributes(a) + enc_bytes(d) =~= enc_str(k) + t1);
    lemma_read_str(k, t1);
    lemma_read_attributes(a, t2);
    assert(t2 =~= enc_bytes(d) + empty);
    lemma_read_bytes(d, empty);
}

#[verifier::spinoff_prover]
#[verifier::rlimit(100)]
proof fn lemma_case_psageneratekey(key_name: Seq<char>, attributes: KeyAttributes)
    requires
        str_encodable(key_name),
    ensures
        spec_body_to_operation(spec_operation_to_body((OpView::PsaGenerateKey { key_name, attributes })), Opcode::PsaGenerateKey) == Some(
            (OpView::PsaGenerateKey { key_name, attributes }),
        ),
{
    lemma_rt_generate_key(key_name, attributes);
}

#[verifier::spinoff_prover]
#[verifier::rlimit(100)]
proof fn lemma_case_psaimportkey(key_name: Seq<char>, attributes: KeyAttributes, data: Seq<u8>)
    requires
        str_encodable(key_name),
        bytes_encodable(data),
    ensures
        spec_body_to_operation(spec_operation_to_body((OpView::PsaImportKey { key_name, attributes, data })), Opcode::PsaImportKey) == Some(
            (OpView::PsaImportKey { key_name, attributes, data }),
        ),
{
    lemma_rt_import_key(key_name, attributes, data);
}

#[verifier::spinoff_prover]
#[verifier::rlimit(100)]
proof fn lemma_case_psaexportpublickey(key_name: Seq<char>)
    requires
        str_encodable(key_name),
    ensures
        spec_body_to_operation(spec_operation_to_body((OpView::PsaExportPublicKey { key_name })), Opcode::PsaExportPublicKey) == Some(
            (OpView::PsaExportPublicKey { key_name }),
        ),
{
    lemma_rt_name_only(key_name);
}

#[verifier::spinoff_prover]
#[verifier::rlimit(100)]
proof fn lemma_case_psaexportkey(key_name: Seq<char>)
    requires
        str_encodable(key_name),
    ensures
        spec_body_to_operation(spec_operation_to_body((OpView::PsaExportKey { key_name })), Opcode::PsaExportKey) == Some(
            (OpView::PsaExportKey { key_name }),
        ),
{
    lemma_rt_name_only(key_name);
}

#[verifier::spinoff_prover]
#[verifier::rlimit(100)]
proof fn lemma_case_psadestroykey(key_name: Seq<char>)
    requires
        str_encodable(key_name),
    ensures
        spec_body_to_operation(spec_operation_to_body((OpView::PsaDestroyKey { key_name })), Opcode::PsaDestroyKey) == Some(
            (OpView::PsaDestroyKey { key_name }),
        ),
{
    lemma_rt_name_only(key_name);
}

#[verifier::spinoff_prover]
#[verifier::rlimit(100)]
proof fn lemma_case_psasignhash(key_name: Seq<char>, hash: Seq<u8>)
    requires
        str_encodable(key_name),
        bytes_encodable(hash),
    ensures
        spec_body_to_operation(spec_operation_to_body((OpView::PsaSignHash { key_name, hash })), Opcode::PsaSignHash) == Some(
            (OpView::PsaSignHash { key_name, hash }),
        ),
{
    lemma_rt_name_bytes(key_name, hash);
}

#[verifier::spinoff_prover]
#[verifier::rlimit(100)]
proof fn lemma_case_psaverifyhash(key_name: Seq<char>, hash: Seq<u8>, signature: Seq<u8>)
    requires
        str_encodable(key_name),
        bytes_encodable(hash),
        bytes_encodable(signature),
    ensures
        spec_body_to_operation(spec_operation_to_body((OpView::PsaVerifyHash { key_name, hash, signature })), Opcode::PsaVerifyHash) == Some(
            (OpView::PsaVerifyHash { key_name, hash, signature }),
        ),
{
    lemma_rt_name_bytes_bytes(key_name, hash, signature);
}

#[verifier::spinoff_prover]
#[verifier::rlimit(100)]
proof fn lemma_case_psaasymmetricencrypt(key_name: Seq<char>, plaintext: Seq<u8>)
    requires
        str_encodable(key_name),
        bytes_encodable(plaintext),
    ensures
        spec_body_to_operation(spec_operation_to_body((OpView::PsaAsymmetricEncrypt { key_name, plaintext })), Opcode::PsaAsymmetricEncrypt) == Some(
            (OpView::PsaAsymmetricEncrypt { key_name, plaintext }),
        ),
{
    lemma_rt_name_bytes(key_name, plaintext);
}

#[verifier::spinoff_prover]
#[verifier::rlimit(100)]
proof fn lemma_case_psaasymmetricdecrypt(key_name: Seq<char>, ciphertext: Seq<u8>)
    requires
        str_encodable(key_name),
        bytes_encodable(ciphertext),
    ensures
        spec_body_to_operation(spec_operation_to_body((OpView::PsaAsymmetricDecrypt { key_name, ciphertext })), Opcode::PsaAsymmetricDecrypt) == Some(
            (OpView::PsaAsymmetricDecrypt { key_name, ciphertext }),
        ),
{
    lemma_rt_name_bytes(key_name, ciphertext);
}

#[verifier::spinoff_prover]
#[verifier::rlimit(100)]
proof fn lemma_case_psaaeadencrypt(key_name: Seq<char>, nonce: Seq<u8>, plaintext: Seq<u8>)
    requires
        str_encodable(key_name),
        bytes_encodable(nonce),
        bytes_encodable(plaintext),
    ensures
        spec_body_to_operation(spec_operation_to_body((OpView::PsaAeadEncrypt { key_name, nonce, plaintext })), Opcode::PsaAeadEncrypt) == Some(
            (OpView::PsaAeadEncrypt { key_name, nonce, plaintext }),
        ),
{
    lemma_rt_name_bytes_bytes(key_name, nonce, plaintext);
}

#[verifier::spinoff_prover]
#[verifier::rlimit(100)]
proof fn lemma_case_psaaeaddecrypt(key_name: Seq<char>, nonce: Seq<u8>, ciphertext: Seq<u8>)
    requires
        str_encodable(key_name),
        bytes_encodable(nonce),
        bytes_encodable(ciphertext),
    ensures
        spec_body_to_operation(spec_operation_to_body((OpView::PsaAeadDecrypt { key_name, nonce, ciphertext })), Opcode::PsaAeadDecrypt) == Some(
            (OpView::PsaAeadDecrypt { key_name, nonce, ciphertext }),
        ),
{
    lemma_rt_name_bytes_bytes(key_name, nonce, ciphertext);
}

#[verifier::spinoff_prover]
#[verifier::rlimit(100)]
proof fn lemma_case_psarawkeyagreement(private_key_name: Seq<char>, peer_key: Seq<u8>)
    requires
        str_encodable(private_key_name),
        bytes_encodable(peer_key),
    ensures
        spec_body_to_operation(spec_operation_to_body((OpView::PsaRawKeyAgreement { private_key_name, peer_key })), Opcode::PsaRawKeyAgreement) == Some(
            (OpView::PsaRawKeyAgreement { private_key_name, peer_key }),
        ),
{
    lemma_rt_name_bytes(private_key_name, peer_key);
}

#[verifier::spinoff_prover]
#[verifier::rlimit(100)]
proof fn lemma_case_psahashcompute(input: Seq<u8>)
    requires
        bytes_encodable(input),
    ensures
        spec_body_to_operation(spec_operation_to_body((OpView::PsaHashCompute { input })), Opcode::PsaHashCompute) == Some(
            (OpView::PsaHashCompute { input }),
        ),
{
    lemma_rt_bytes_only(input);
}

#[verifier::spinoff_prover]
#[verifier::rlimit(100)]
proof fn lemma_case_psahashcompare(input: Seq<u8>, hash: Seq<u8>)
    requires
        bytes_encodable(input),
        bytes_encodable(hash),
    ensures
        spec_body_to_operation(spec_operation_to_body((OpView::PsaHashCompare { input, hash })), Opcode::PsaHashCompare) == Some(
            (OpView::PsaHashCompare { input, hash }),
        ),
{
    lemma_rt_bytes_bytes(input, hash);
}

#[verifier::spinoff_prover]
#[verifier::rlimit(100)]
proof fn lemma_case_psageneraterandom(size: u32)
    ensures
        spec_body_to_operation(spec_operation_to_body((OpView::PsaGenerateRandom { size })), Opcode::PsaGenerateRandom) == Some(
            (OpView::PsaGenerateRandom { size }),
        ),
{
    lemma_rt_u32_only(size);
}

/// Decoding inverts encoding: for every encodable operation, the canonical
/// body decodes back to exactly that operation under its own opcode.
#[verifier::spinoff_prover]
#[verifier::rlimit(100)]
pub proof fn lemma_operation_round_trip(v: OpView)
    requires
        op_encodable(v),
    ensures
        spec_body_to_operation(spec_operation_to_body(v), op_view_opcode(v)) == Some(v),
{
    match v {
        OpView::Ping => {},
        OpView::ListProviders => {},
        OpView::ListOpcodes => {},
        OpView::ListAuthenticators => {},
        OpView::ListKeys => {},
        OpView::PsaGenerateKey { key_name, attributes } => {
            lemma_case_psageneratekey(key_name, attributes);
        },
        OpView::PsaImportKey { key_name, attributes, data } => {
            lemma_case_psaimportkey(key_name, attributes, data);
        },
        OpView::PsaExportPublicKey { key_name } => {
            lemma_case_psaexportpublickey(key_name);
        },
        OpView::PsaExportKey { key_name } => {
            lemma_case_psaexportkey(key_name);
        },
        OpView::PsaDestroyKey { key_name } => {
            lemma_case_psadestroykey(key_name);
        },
        OpView::PsaSignHash { key_name, hash } => {
            lemma_case_psasignhash(key_name, hash);
        },
        OpView::PsaVerifyHash { key_name, hash, signature } => {
            lemma_case_psaverifyhash(key_name, hash, signature);
        },
        OpView::PsaAsymmetricEncrypt { key_name, plaintext } => {
            lemma_case_psaasymmetricencrypt(key_name, plaintext);
        },
        OpView::PsaAsymmetricDecrypt { key_name, ciphertext } => {
            lemma_case_psaasymmetricdecrypt(key_name, ciphertext);
        },
        OpView::PsaAeadEncrypt { key_name, nonce, plaintext } => {
            lemma_case_psaaeadencrypt(key_name, nonce, plaintext);
        },
        OpView::PsaAeadDecrypt { key_name, nonce, ciphertext } => {
            lemma_case_psaaeaddecrypt(key_name, nonce, ciphertext);
        },
        OpView::PsaRawKeyAgreement { private_key_name, peer_key } => {
            lemma_case_psarawkeyagreement(private_key_name, peer_key);
        },
        OpView::PsaHashCompute { input } => {
            lemma_case_psahashcompute(input);
        },
        OpView::PsaHashCompare { input, hash } => {
            lemma_case_psahashcompare(input, hash);
        },
        OpView::PsaGenerateRandom { size } => {
            lemma_case_psageneraterandom(size);
        },
    }
}


// ---------------------------------------------------------------------------
// Executable operation codec.
// ---------------------------------------------------------------------------

/// Encodes an operation into a request body, or reports that a field exceeds
/// the 32-bit length prefix.
#[verifier::spinoff_prover]
#[verifier::rlimit(100)]
pub fn operation_to_body(op: &NativeOperation) -> (r: Result<Vec<u8>, ResponseStatus>)
    ensures
        match r {
            Result::Ok(b) => op_encodable(op@) && b@ == spec_operation_to_body(op@),
            Result::Err(e) => !op_encodable(op@) && e == ResponseStatus::SerializingBodyFailed,
        },
{
    let mut out: Vec<u8> = Vec::new();
    match op {
        NativeOperation::Ping(..) => {},
        NativeOperation::ListProviders => {},
        NativeOperation::ListOpcodes => {},
        NativeOperation::ListAuthenticators => {},
        NativeOperation::ListKeys => {},
        NativeOperation::PsaGenerateKey { key_name, attributes } => {
            if !write_str(&mut out, key_name) {
                return Err(ResponseStatus::SerializingBodyFailed);
            }
            write_attributes(&mut out, attributes);
        },
        NativeOperation::PsaImportKey { key_name, attributes, data } => {
            if !write_str(&mut out, key_name) {
                return Err(ResponseStatus::SerializingBodyFailed);
            }
            write_attributes(&mut out, attributes);
            if !write_bytes(&mut out, data) {
                return Err(ResponseStatus::SerializingBodyFailed);
            }
        },
        NativeOperation::PsaExportPublicKey { key_name } => {
            if !write_str(&mut out, key_name) {
                return Err(ResponseStatus::SerializingBodyFailed);
            }
        },
        NativeOperation::PsaExportKey { key_name } => {
            if !write_str(&mut out, key_name) {
                return Err(ResponseStatus::SerializingBodyFailed);
            }
        },
        NativeOperation::PsaDestroyKey { key_name } => {
            if !write_str(&mut out, key_name) {
                return Err(ResponseStatus::SerializingBodyFailed);
            }
        },
        NativeOperation::PsaSignHash { key_name, hash } => {
            if !write_str(&mut out, key_name) {
                return Err(ResponseStatus::SerializingBodyFailed);
            }
            if !write_bytes(&mut out, hash) {
                return Err(ResponseStatus::SerializingBodyFailed);
            }
        },
        NativeOperation::PsaVerifyHash { key_name, hash, signature } => {
            if !write_str(&mut out, key_name) {
                return Err(ResponseStatus::SerializingBodyFailed);
            }
            if !write_bytes(&mut out, hash) {
                return Err(ResponseStatus::SerializingBodyFailed);
            }
            if !write_bytes(&mut out, signature) {
                return Err(ResponseStatus::SerializingBodyFailed);
            }
        },
        NativeOperation::PsaAsymmetricEncrypt { key_name, plaintext } => {
            if !write_str(&mut out, key_name) {
                return Err(ResponseStatus::SerializingBodyFailed);
            }
            if !write_bytes(&mut out, plaintext) {
                return Err(ResponseStatus::SerializingBodyFailed);
            }
        },
        NativeOperation::PsaAsymmetricDecrypt { key_name, ciphertext } => {
            if !write_str(&mut out, key_name) {
                return Err(ResponseStatus::SerializingBodyFailed);
            }
            if !write_bytes(&mut out, ciphertext) {
                return Err(ResponseStatus::SerializingBodyFailed);
            }
        },
        NativeOperation::PsaAeadEncrypt { key_name, nonce, plaintext } => {
            if !write_str(&mut out, key_name) {
                return Err(ResponseStatus::SerializingBodyFailed);
            }
            if !write_bytes(&mut out, nonce) {
                return Err(ResponseStatus::SerializingBodyFailed);
            }
            if !write_bytes(&mut out, plaintext) {
                return Err(ResponseStatus::SerializingBodyFailed);
            }
        },
        NativeOperation::PsaAeadDecrypt { key_name, nonce, ciphertext } => {
            if !write_str(&mut out, key_name) {
                return Err(ResponseStatus::SerializingBodyFailed);
            }
            if !write_bytes(&mut out, nonce) {
                return Err(ResponseStatus::SerializingBodyFailed);
            }
            if !write_bytes(&mut out, ciphertext) {
                return Err(ResponseStatus::SerializingBodyFailed);
            }
        },
        NativeOperation::PsaRawKeyAgreement { private_key_name, peer_key } => {
            if !write_str(&mut out, private_key_name) {
                return Err(ResponseStatus::SerializingBodyFailed);
            }
            if !write_bytes(&mut out, peer_key) {
                return Err(ResponseStatus::SerializingBodyFailed);
            }
        },
        NativeOperation::PsaHashCompute { input } => {
            if !write_bytes(&mut out, input) {
                return Err(ResponseStatus::SerializingBodyFailed);
            }
        },
        NativeOperation::PsaHashCompare { input, hash } => {
            if !write_bytes(&mut out, input) {
                return Err(ResponseStatus::SerializingBodyFailed);
            }
            if !write_bytes(&mut out, hash) {
                return Err(ResponseStatus::SerializingBodyFailed);
            }
        },
        NativeOperation::PsaGenerateRandom { size } => {
            write_u32(&mut out, *size);
        },
    }
    assert(out@ =~= spec_operation_to_body(op@));
    Ok(out)
}


/// Decodes a request body into the operation named by the header opcode, or
/// reports that the body is malformed for that opcode.
#[verifier::spinoff_prover]
#[verifier::rlimit(100)]
pub fn body_to_operation(body: &Vec<u8>, opcode: Opcode) -> (r: Result<
    NativeOperation,
    ResponseStatus,
>)
    ensures
        match r {
            Result::Ok(op) => spec_body_to_operation(body@, opcode) == Some(op@)
                && spec_opcode_of_operation(op) == opcode,
            Result::Err(e) => spec_body_to_operation(body@, opcode) is None && e
                == ResponseStatus::DeserializingBodyFailed,
        },
{
    proof {
        assert(body@.skip(0) =~= body@);
    }
    match opcode {
        Opcode::Ping => {
            if body.len() == 0 {
                Ok(NativeOperation::Ping(OpPing {  }))
            } else {
                Err(ResponseStatus::DeserializingBodyFailed)
            }
        },
        Opcode::ListProviders => {
            if body.len() == 0 {
                Ok(NativeOperation::ListProviders)
            } else {
                Err(ResponseStatus::DeserializingBodyFailed)
            }
        },
        Opcode::ListOpcodes => {
            if body.len() == 0 {
                Ok(NativeOperation::ListOpcodes)
            } else {
                Err(ResponseStatus::DeserializingBodyFailed)
            }
        },
        Opcode::ListAuthenticators => {
            if body.len() == 0 {
                Ok(NativeOperation::ListAuthenticators)
            } else {
                Err(ResponseStatus::DeserializingBodyFailed)
            }
        },
        Opcode::ListKeys => {
            if body.len() == 0 {
                Ok(NativeOperation::ListKeys)
            } else {
                Err(ResponseStatus::DeserializingBodyFailed)
            }
        },
        Opcode::PsaGenerateKey => {
            match exec_read_str(body, 0) {
                Option::None => Err(ResponseStatus::DeserializingBodyFailed),
                Option::Some((key_name, p)) => match exec_read_attributes(body, p) {
                    Option::None => Err(ResponseStatus::DeserializingBodyFailed),
                    Option::Some((attributes, p2)) => {
                        if p2 == body.len() {
                            assert(body@.skip(p2 as int).len() == 0);
                            Ok(NativeOperation::PsaGenerateKey { key_name, attributes })
                        } else {
                            Err(ResponseStatus::DeserializingBodyFailed)
                        }
                    },
                },
            }
        },
        Opcode::PsaImportKey => {
            match exec_read_str(body, 0) {
                Option::None => Err(ResponseStatus::DeserializingBodyFailed),
                Option::Some((key_name, p)) => match exec_read_attributes(body, p) {
                    Option::None => Err(ResponseStatus::DeserializingBodyFailed),
                    Option::Some((attributes, p2)) => match exec_read_bytes(body, p2) {
                        Option::None => Err(ResponseStatus::DeserializingBodyFailed),
                        Option::Some((data, p3)) => {
                            if p3 == body.len() {
                                assert(body@.skip(p3 as int).len() == 0);
                                Ok(NativeOperation::PsaImportKey { key_name, attributes, data })
                            } else {
                                Err(ResponseStatus::DeserializingBodyFailed)
                            }
                        },
                    },
                },
            }
        },
        Opcode::PsaExportPublicKey => {
            match exec_read_str(body, 0) {
                Option::None => Err(ResponseStatus::DeserializingBodyFailed),
                Option::Some((key_name, p)) => {
                    if p == body.len() {
                        assert(body@.skip(p as int).len() == 0);
                        Ok(NativeOperation::PsaExportPublicKey { key_name })
                    } else {
                        Err(ResponseStatus::DeserializingBodyFailed)
                    }
                },
            }
        },
        Opcode::PsaExportKey => {
            match exec_read_str(body, 0) {
                Option::None => Err(ResponseStatus::DeserializingBodyFailed),
                Option::Some((key_name, p)) => {
                    if p == body.len() {
                        assert(body@.skip(p as int).len() == 0);
                        Ok(NativeOperation::PsaExportKey { key_name })
                    } else {
                        Err(ResponseStatus::DeserializingBodyFailed)
                    }
                },
            }
        },
        Opcode::PsaDestroyKey => {
            match exec_read_str(body, 0) {
                Option::None => Err(ResponseStatus::DeserializingBodyFailed),
                Option::Some((key_name, p)) => {
                    if p == body.len() {
                        assert(body@.skip(p as int).len() == 0);
                        Ok(NativeOperation::PsaDestroyKey { key_name })
                    } else {
                        Err(ResponseStatus::DeserializingBodyFailed)
                    }
                },
            }
        },
        Opcode::PsaSignHash => {
            match exec_read_str(body, 0) {
                Option::None => Err(ResponseStatus::DeserializingBodyFailed),
                Option::Some((key_name, p)) => match exec_read_bytes(body, p) {
                    Option::None => Err(ResponseStatus::DeserializingBodyFailed),
                    Option::Some((hash, p2)) => {
                        if p2 == body.len() {
                            assert(body@.skip(p2 as int).len() == 0);
                            Ok(NativeOperation::PsaSignHash { key_name, hash })
                        } else {
                            Err(ResponseStatus::DeserializingBodyFailed)
                        }
                    },
                },
            }
        },
        Opcode::PsaVerifyHash => {
            match exec_read_str(body, 0) {
                Option::None => Err(ResponseStatus::DeserializingBodyFailed),
                Option::Some((key_name, p)) => match exec_read_bytes(body, p) {
                    Option::None => Err(ResponseStatus::DeserializingBodyFailed),
                    Option::Some((hash, p2)) => match exec_read_bytes(body, p2) {
                        Option::None => Err(ResponseStatus::DeserializingBodyFailed),
                        Option::Some((signature, p3)) => {
                            if p3 == body.len() {
                                assert(body@.skip(p3 as int).len() == 0);
                                Ok(NativeOperation::PsaVerifyHash { key_name, hash, signature })
                            } else {
                                Err(ResponseStatus::DeserializingBodyFailed)
                            }
                        },
                    },
                },
            }
        },
        Opcode::PsaAsymmetricEncrypt => {
            match exec_read_str(body, 0) {
                Option::None => Err(ResponseStatus::DeserializingBodyFailed),
                Option::Some((key_name, p)) => match exec_read_bytes(body, p) {
                    Option::None => Err(ResponseStatus::DeserializingBodyFailed),
                    Option::Some((plaintext, p2)) => {
                        if p2 == body.len() {
                            assert(body@.skip(p2 as int).len() == 0);
                            Ok(NativeOperation::PsaAsymmetricEncrypt { key_name, plaintext })
                        } else {
                            Err(ResponseStatus::DeserializingBodyFailed)
                        }
                    },
                },
            }
        },
        Opcode::PsaAsymmetricDecrypt => {
            match exec_read_str(body, 0) {
                Option::None => Err(ResponseStatus::DeserializingBodyFailed),
                Option::Some((key_name, p)) => match exec_read_bytes(body, p) {
                    Option::None => Err(ResponseStatus::DeserializingBodyFailed),
                    Option::Some((ciphertext, p2)) => {
                        if p2 == body.len() {
                            assert(body@.skip(p2 as int).len() == 0);
                            Ok(NativeOperation::PsaAsymmetricDecrypt { key_name, ciphertext })
                        } else {
                            Err(ResponseStatus::DeserializingBodyFailed)
                        }
                    },
                },
            }
        },
        Opcode::PsaAeadEncrypt => {
            match exec_read_str(body, 0) {
                Option::None => Err(ResponseStatus::DeserializingBodyFailed),
                Option::Some((key_name, p)) => match exec_read_bytes(body, p) {
                    Option::None => Err(ResponseStatus::DeserializingBodyFailed),
                    Option::Some((nonce, p2)) => match exec_read_bytes(body, p2) {
                        Option::None => Err(ResponseStatus::DeserializingBodyFailed),
                        Option::Some((plaintext, p3)) => {
                            if p3 == body.len() {
                                assert(body@.skip(p3 as int).len() == 0);
                                Ok(NativeOperation::PsaAeadEncrypt { key_name, nonce, plaintext })
                            } else {
                                Err(ResponseStatus::DeserializingBodyFailed)
                            }
                        },
                    },
                },
            }
        },
        Opcode::PsaAeadDecrypt => {
            match exec_read_str(body, 0) {
                Option::None => Err(ResponseStatus::DeserializingBodyFailed),
                Option::Some((key_name, p)) => match exec_read_bytes(body, p) {
                    Option::None => Err(ResponseStatus::DeserializingBodyFailed),
                    Option::Some((nonce, p2)) => match exec_read_bytes(body, p2) {
                        Option::None => Err(ResponseStatus::DeserializingBodyFailed),
                        Option::Some((ciphertext, p3)) => {
                            if p3 == body.len() {
                                assert(body@.skip(p3 as int).len() == 0);
                                Ok(NativeOperation::PsaAeadDecrypt { key_name, nonce, ciphertext })
                            } else {
                                Err(ResponseStatus::DeserializingBodyFailed)
                            }
                        },
                    },
                },
            }
        },
        Opcode::PsaRawKeyAgreement => {
            match exec_read_str(body, 0) {
                Option::None => Err(ResponseStatus::DeserializingBodyFailed),
                Option::Some((private_key_name, p)) => match exec_read_bytes(body, p) {
                    Option::None => Err(ResponseStatus::DeserializingBodyFailed),
                    Option::Some((peer_key, p2)) => {
                        if p2 == body.len() {
                            assert(body@.skip(p2 as int).len() == 0);
                            Ok(NativeOperation::PsaRawKeyAgreement { private_key_name, peer_key })
                        } else {
                            Err(ResponseStatus::DeserializingBodyFailed)
                        }
                    },
                },
            }
        },
        Opcode::PsaHashCompute => {
            match exec_read_bytes(body, 0) {
                Option::None => Err(ResponseStatus::DeserializingBodyFailed),
                Option::Some((input, p)) => {
                    if p == body.len() {
                        assert(body@.skip(p as int).len() == 0);
                        Ok(NativeOperation::PsaHashCompute { input })
                    } else {
                        Err(ResponseStatus::DeserializingBodyFailed)
                    }
                },
            }
        },
        Opcode::PsaHashCompare => {
            match exec_read_bytes(body, 0) {
                Option::None => Err(ResponseStatus::DeserializingBodyFailed),
                Option::Some((input, p)) => match exec_read_bytes(body, p) {
                    Option::None => Err(ResponseStatus::DeserializingBodyFailed),
                    Option::Some((hash, p2)) => {
                        if p2 == body.len() {
                            assert(body@.skip(p2 as int).len() == 0);
                            Ok(NativeOperation::PsaHashCompare { input, hash })
                        } else {
                            Err(ResponseStatus::DeserializingBodyFailed)
                        }
                    },
                },
            }
        },
        Opcode::PsaGenerateRandom => {
            match exec_read_u32(body, 0) {
                Option::None => Err(ResponseStatus::DeserializingBodyFailed),
                Option::Some((size, p)) => {
                    if p == body.len() {
                        assert(body@.skip(p as int).len() == 0);
                        Ok(NativeOperation::PsaGenerateRandom { size })
                    } else {
                        Err(ResponseStatus::DeserializingBodyFailed)
                    }
                },
            }
        },
    }
}


// ---------------------------------------------------------------------------
// Length-prefixed lists: a 32-bit count, then each item's encoding. The
// reader is parameterized by the item reader and the count.
// ---------------------------------------------------------------------------

pub open spec fn enc_list_items<A>(elems: Seq<A>, f: spec_fn(A) -> Seq<u8>) -> Seq<u8>
    decreases elems.len(),
{
    if elems.len() == 0 {
        Seq::<u8>::empty()
    } else {
        f(elems[0]) + enc_list_items(elems.drop_first(), f)
    }
}

pub open spec fn enc_list<A>(elems: Seq<A>, f: spec_fn(A) -> Seq<u8>) -> Seq<u8> {
    enc_u32(elems.len() as u32) + enc_list_items(elems, f)
}

/// Prefixes the item sequence of a partial read result.
pub open spec fn prepend_items<A>(prefix: Seq<A>, o: Option<(Seq<A>, Seq<u8>)>) -> Option<
    (Seq<A>, Seq<u8>),
> {
    match o {
        Option::None => Option::None,
        Option::Some((items, rest)) => Some((prefix + items, rest)),
    }
}

pub open spec fn read_list_items<A>(
    s: Seq<u8>,
    g: spec_fn(Seq<u8>) -> Option<(A, Seq<u8>)>,
    n: nat,
) -> Option<(Seq<A>, Seq<u8>)>
    decreases n,
{
    if n == 0 {
        Some((Seq::<A>::empty(), s))
    } else {
        match g(s) {
            Option::None => Option::None,
            Option::Some((a, rest)) => prepend_items(
                seq![a],
                read_list_items(rest, g, (n - 1) as nat),
            ),
        }
    }
}

pub open spec fn read_list<A>(s: Seq<u8>, g: spec_fn(Seq<u8>) -> Option<(A, Seq<u8>)>) -> Option<
    (Seq<A>, Seq<u8>),
> {
    match read_u32(s) {
        Option::None => Option::None,
        Option::Some((n, rest)) => read_list_items(rest, g, n as nat),
    }
}

/// Appending one item to a list appends its encoding to the list's encoding.
pub proof fn lemma_enc_list_items_push<A>(elems: Seq<A>, a: A, f: spec_fn(A) -> Seq<u8>)
    ensures
        enc_list_items(elems.push(a), f) == enc_list_items(elems, f) + f(a),
    decreases elems.len(),
{
    let pushed = elems.push(a);
    if elems.len() == 0 {
        assert(pushed[0] == a);
        assert(pushed.drop_first() =~= Seq::<A>::empty());
        assert(pushed.drop_first() == Seq::<A>::empty());
        assert(enc_list_items(pushed, f) == f(a) + enc_list_items(Seq::<A>::empty(), f));
        assert(enc_list_items(pushed, f) =~= enc_list_items(elems, f) + f(a));
    } else {
        assert(pushed[0] == elems[0]);
        assert(pushed.drop_first() =~= elems.drop_first().push(a));
        assert(pushed.drop_first() == elems.drop_first().push(a));
        lemma_enc_list_items_push(elems.drop_first(), a, f);
        assert(enc_list_items(pushed, f) == f(elems[0]) + (enc_list_items(elems.drop_first(), f)
            + f(a)));
        assert(enc_list_items(pushed, f) =~= enc_list_items(elems, f) + f(a));
    }
}

/// Reading back the items of an encoded list yields exactly those items,
/// provided each item's encoding reads back to itself before any suffix.
pub proof fn lemma_read_list_items<A>(
    elems: Seq<A>,
    f: spec_fn(A) -> Seq<u8>,
    g: spec_fn(Seq<u8>) -> Option<(A, Seq<u8>)>,
    rest: Seq<u8>,
)
    requires
        forall|a: A, r: Seq<u8>| elems.contains(a) ==> #[trigger] g(f(a) + r) == Some((a, r)),
    ensures
        read_list_items(enc_list_items(elems, f) + rest, g, elems.len() as nat) == Some(
            (elems, rest),
        ),
    decreases elems.len(),
{
    if elems.len() == 0 {
        assert(enc_list_items(elems, f) + rest =~= rest);
        assert(Seq::<A>::empty() =~= elems);
    } else {
        let a = elems[0];
        let tail = elems.drop_first();
        assert(elems.contains(a));
        let tail_bytes = enc_list_items(tail, f) + rest;
        assert(enc_list_items(elems, f) + rest =~= f(a) + tail_bytes);
        assert(g(f(a) + tail_bytes) == Some((a, tail_bytes)));
        assert(forall|x: A, r: Seq<u8>|
            tail.contains(x) ==> elems.contains(x) && #[trigger] g(f(x) + r) == Some((x, r)));
        lemma_read_list_items(tail, f, g, rest);
        assert(seq![a] + tail =~= elems);
    }
}

/// Round trip of a whole length-prefixed list.
pub proof fn lemma_read_list<A>(
    elems: Seq<A>,
    f: spec_fn(A) -> Seq<u8>,
    g: spec_fn(Seq<u8>) -> Option<(A, Seq<u8>)>,
    rest: Seq<u8>,
)
    requires
        elems.len() <= u32::MAX,
        forall|a: A, r: Seq<u8>| elems.contains(a) ==> #[trigger] g(f(a) + r) == Some((a, r)),
    ensures
        read_list(enc_list(elems, f) + rest, g) == Some((elems, rest)),
{
    let n = elems.len() as u32;
    assert(enc_list(elems, f) + rest =~= enc_u32(n) + (enc_list_items(elems, f) + rest));
    lemma_read_u32(n, enc_list_items(elems, f) + rest);
    lemma_read_list_items(elems, f, g, rest);
}


// ---------------------------------------------------------------------------
// Result bodies: specification level.
// ---------------------------------------------------------------------------

/// Encoder of one opcode as a list item.
pub open spec fn opcode_item_enc() -> spec_fn(Opcode) -> Seq<u8> {
    |k: Opcode| enc_u8(opcode_tag(k))
}

/// Reader of one opcode as a list item.
pub open spec fn opcode_item_read() -> spec_fn(Seq<u8>) -> Option<(Opcode, Seq<u8>)> {
    |s: Seq<u8>|
        match read_u8(s) {
            Option::None => Option::None,
            Option::Some((x, rest)) => match opcode_of_tag(x) {
                Option::None => Option::None,
                Option::Some(k) => Some((k, rest)),
            },
        }
}

/// Encoder of one authentication kind as a list item.
pub open spec fn auth_item_enc() -> spec_fn(AuthType) -> Seq<u8> {
    |a: AuthType| enc_u8(auth_tag(a))
}

/// Reader of one authentication kind as a list item.
pub open spec fn auth_item_read() -> spec_fn(Seq<u8>) -> Option<(AuthType, Seq<u8>)> {
    |s: Seq<u8>|
        match read_u8(s) {
            Option::None => Option::None,
            Option::Some((x, rest)) => match auth_of_tag(x) {
                Option::None => Option::None,
                Option::Some(a) => Some((a, rest)),
            },
        }
}

/// Encoder of one key name as a list item.
pub open spec fn str_item_enc() -> spec_fn(Seq<char>) -> Seq<u8> {
    |c: Seq<char>| enc_str(c)
}

/// Reader of one key name as a list item.
pub open spec fn str_item_read() -> spec_fn(Seq<u8>) -> Option<(Seq<char>, Seq<u8>)> {
    |s: Seq<u8>| read_str(s)
}

/// Encoding of one provider descriptor.
pub open spec fn enc_provider_info(p: ProviderInfoView) -> Seq<u8> {
    enc_bytes(p.uuid) + enc_str(p.description) + enc_str(p.vendor) + enc_u8(p.version_maj)
        + enc_u8(p.version_min) + enc_u8(p.version_rev) + enc_u8(provider_tag(p.id))
}

/// Whether a provider descriptor fits the length prefixes of its fields.
pub open spec fn provider_info_encodable(p: ProviderInfoView) -> bool {
    bytes_encodable(p.uuid) && str_encodable(p.description) && str_encodable(p.vendor)
}

/// Reader of one provider descriptor.
pub open spec fn read_provider_info(s: Seq<u8>) -> Option<(ProviderInfoView, Seq<u8>)> {
    match read_bytes(s) {
        Option::None => Option::None,
        Option::Some((uuid, s)) => match read_str(s) {
            Option::None => Option::None,
            Option::Some((description, s)) => match read_str(s) {
                Option::None => Option::None,
                Option::Some((vendor, s)) => match read_u8(s) {
                    Option::None => Option::None,
                    Option::Some((version_maj, s)) => match read_u8(s) {
                        Option::None => Option::None,
                        Option::Some((version_min, s)) => match read_u8(s) {
                            Option::None => Option::None,
                            Option::Some((version_rev, s)) => match read_u8(s) {
                                Option::None => Option::None,
                                Option::Some((idt, s)) => match provider_of_tag(idt) {
                                    Option::None => Option::None,
                                    Option::Some(id) => Some(
                                        (
                                            ProviderInfoView {
                                                uuid,
                                                description,
                                                vendor,
                                                version_maj,
                                                version_min,
                                                version_rev,
                                                id,
                                            },
                                            s,
                                        ),
                                    ),
                                },
                            },
                        },
                    },
                },
            },
        },
    }
}

/// List-item form of [`read_provider_info`].
pub open spec fn provider_item_read() -> spec_fn(Seq<u8>) -> Option<(ProviderInfoView, Seq<u8>)> {
    |s: Seq<u8>| read_provider_info(s)
}

/// List-item form of [`enc_provider_info`].
pub open spec fn provider_item_enc() -> spec_fn(ProviderInfoView) -> Seq<u8> {
    |p: ProviderInfoView| enc_provider_info(p)
}

#[verifier::spinoff_prover]
#[verifier::rlimit(100)]
pub proof fn lemma_read_provider_info(p: ProviderInfoView, rest: Seq<u8>)
    requires
        provider_info_encodable(p),
    ensures
        read_provider_info(enc_provider_info(p) + rest) == Some((p, rest)),
{
    let t6 = enc_u8(provider_tag(p.id)) + rest;
    let t5 = enc_u8(p.version_rev) + t6;
    let t4 = enc_u8(p.version_min) + t5;
    let t3 = enc_u8(p.version_maj) + t4;
    let t2 = enc_str(p.vendor) + t3;
    let t1 = enc_str(p.description) + t2;
    assert(enc_provider_info(p) + rest =~= enc_bytes(p.uuid) + t1);
    lemma_read_bytes(p.uuid, t1);
    lemma_read_str(p.description, t2);
    lemma_read_str(p.vendor, t3);
    lemma_read_u8(p.version_maj, t4);
    lemma_read_u8(p.version_min, t5);
    lemma_read_u8(p.version_rev, t6);
    lemma_read_u8(provider_tag(p.id), rest);
}

/// Whether a result can be encoded: every variable-length field fits its
/// length prefix.
pub open spec fn result_encodable(v: ResultView) -> bool {
    match v {
        ResultView::Ping { .. } => true,
        ResultView::ListProviders { providers } => providers.len() <= u32::MAX && (forall|i: int|
            0 <= i < providers.len() ==> provider_info_encodable(#[trigger] providers[i])),
        ResultView::ListOpcodes { opcodes } => opcodes.len() <= u32::MAX,
        ResultView::ListAuthenticators { authenticators } => authenticators.len() <= u32::MAX,
        ResultView::ListKeys { keys } => keys.len() <= u32::MAX && (forall|i: int|
            0 <= i < keys.len() ==> str_encodable(#[trigger] keys[i])),
        ResultView::PsaGenerateKey => true,
        ResultView::PsaImportKey => true,
        ResultView::PsaExportPublicKey { data } => bytes_encodable(data),
        ResultView::PsaExportKey { data } => bytes_encodable(data),
        ResultView::PsaDestroyKey => true,
        ResultView::PsaSignHash { signature } => bytes_encodable(signature),
        ResultView::PsaVerifyHash => true,
        ResultView::PsaAsymmetricEncrypt { ciphertext } => bytes_encodable(ciphertext),
        ResultView::PsaAsymmetricDecrypt { plaintext } => bytes_encodable(plaintext),
        ResultView::PsaAeadEncrypt { ciphertext } => bytes_encodable(ciphertext),
        ResultView::PsaAeadDecrypt { plaintext } => bytes_encodable(plaintext),
        ResultView::PsaRawKeyAgreement { shared_secret } => bytes_encodable(shared_secret),
        ResultView::PsaHashCompute { hash } => bytes_encodable(hash),
        ResultView::PsaHashCompare => true,
        ResultView::PsaGenerateRandom { random_bytes } => bytes_encodable(random_bytes),
    }
}

/// The canonical body of a result.
pub open spec fn spec_result_to_body(v: ResultView) -> Seq<u8> {
    match v {
        ResultView::Ping { supp_version_maj, supp_version_min } => enc_u8(supp_version_maj)
            + enc_u8(supp_version_min),
        ResultView::ListProviders { providers } => enc_list(providers, provider_item_enc()),
        ResultView::ListOpcodes { opcodes } => enc_list(opcodes, opcode_item_enc()),
        ResultView::ListAuthenticators { authenticators } => enc_list(
            authenticators,
            auth_item_enc(),
        ),
        ResultView::ListKeys { keys } => enc_list(keys, str_item_enc()),
        ResultView::PsaGenerateKey => Seq::<u8>::empty(),
        ResultView::PsaImportKey => Seq::<u8>::empty(),
        ResultView::PsaExportPublicKey { data } => enc_bytes(data),
        ResultView::PsaExportKey { data } => enc_bytes(data),
        ResultView::PsaDestroyKey => Seq::<u8>::empty(),
        ResultView::PsaSignHash { signature } => enc_bytes(signature),
        ResultView::PsaVerifyHash => Seq::<u8>::empty(),
        ResultView::PsaAsymmetricEncrypt { ciphertext } => enc_bytes(ciphertext),
        ResultView::PsaAsymmetricDecrypt { plaintext } => enc_bytes(plaintext),
        ResultView::PsaAeadEncrypt { ciphertext } => enc_bytes(ciphertext),
        ResultView::PsaAeadDecrypt { plaintext } => enc_bytes(plaintext),
        ResultView::PsaRawKeyAgreement { shared_secret } => enc_bytes(shared_secret),
        ResultView::PsaHashCompute { hash } => enc_bytes(hash),
        ResultView::PsaHashCompare => Seq::<u8>::empty(),
        ResultView::PsaGenerateRandom { random_bytes } => enc_bytes(random_bytes),
    }
}

/// Reading a whole list body: the list must consume the body exactly.
pub open spec fn dec_list_body<A>(s: Seq<u8>, g: spec_fn(Seq<u8>) -> Option<(A, Seq<u8>)>) -> Option<
    Seq<A>,
> {
    match read_list(s, g) {
        Option::None => Option::None,
        Option::Some((items, rest)) => if rest.len() == 0 {
            Some(items)
        } else {
            None
        },
    }
}

/// Decoding a body into the result named by the header opcode.
pub open spec fn spec_body_to_result(s: Seq<u8>, opcode: Opcode) -> Option<ResultView> {
    match opcode {
        Opcode::Ping => match read_u8(s) {
            Option::None => Option::None,
            Option::Some((supp_version_maj, s)) => match read_u8(s) {
                Option::None => Option::None,
                Option::Some((supp_version_min, s)) => if s.len() == 0 {
                    Some(ResultView::Ping { supp_version_maj, supp_version_min })
                } else {
                    None
                },
            },
        },
        Opcode::ListProviders => match dec_list_body(s, provider_item_read()) {
            Option::None => Option::None,
            Option::Some(providers) => Some(ResultView::ListProviders { providers }),
        },
        Opcode::ListOpcodes => match dec_list_body(s, opcode_item_read()) {
            Option::None => Option::None,
            Option::Some(opcodes) => Some(ResultView::ListOpcodes { opcodes }),
        },
        Opcode::ListAuthenticators => match dec_list_body(s, auth_item_read()) {
            Option::None => Option::None,
            Option::Some(authenticators) => Some(ResultView::ListAuthenticators { authenticators }),
        },
        Opcode::ListKeys => match dec_list_body(s, str_item_read()) {
            Option::None => Option::None,
            Option::Some(keys) => Some(ResultView::ListKeys { keys }),
        },
        Opcode::PsaGenerateKey => if s.len() == 0 {
            Some(ResultView::PsaGenerateKey)
        } else {
            None
        },
        Opcode::PsaImportKey => if s.len() == 0 {
            Some(ResultView::PsaImportKey)
        } else {
            None
        },
        Opcode::PsaExportPublicKey => match dec_bytes_only(s) {
            Option::None => Option::None,
            Option::Some(data) => Some(ResultView::PsaExportPublicKey { data }),
        },
        Opcode::PsaExportKey => match dec_bytes_only(s) {
            Option::None => Option::None,
            Option::Some(data) => Some(ResultView::PsaExportKey { data }),
        },
        Opcode::PsaDestroyKey => if s.len() == 0 {
            Some(ResultView::PsaDestroyKey)
        } else {
            None
        },
        Opcode::PsaSignHash => match dec_bytes_only(s) {
            Option::None => Option::None,
            Option::Some(signature) => Some(ResultView::PsaSignHash { signature }),
        },
        Opcode::PsaVerifyHash => if s.len() == 0 {
            Some(ResultView::PsaVerifyHash)
        } else {
            None
        },
        Opcode::PsaAsymmetricEncrypt => match dec_bytes_only(s) {
            Option::None => Option::None,
            Option::Some(ciphertext) => Some(ResultView::PsaAsymmetricEncrypt { ciphertext }),
        },
        Opcode::PsaAsymmetricDecrypt => match dec_bytes_only(s) {
            Option::None => Option::None,
            Option::Some(plaintext) => Some(ResultView::PsaAsymmetricDecrypt { plaintext }),
        },
        Opcode::PsaAeadEncrypt => match dec_bytes_only(s) {
            Option::None => Option::None,
            Option::Some(ciphertext) => Some(ResultView::PsaAeadEncrypt { ciphertext }),
        },
        Opcode::PsaAeadDecrypt => match dec_bytes_only(s) {
            Option::None => Option::None,
            Option::Some(plaintext) => Some(ResultView::PsaAeadDecrypt { plaintext }),
        },
        Opcode::PsaRawKeyAgreement => match dec_bytes_only(s) {
            Option::None => Option::None,
            Option::Some(shared_secret) => Some(ResultView::PsaRawKeyAgreement { shared_secret }),
        },
        Opcode::PsaHashCompute => match dec_bytes_only(s) {
            Option::None => Option::None,
            Option::Some(hash) => Some(ResultView::PsaHashCompute { hash }),
        },
        Opcode::PsaHashCompare => if s.len() == 0 {
            Some(ResultView::PsaHashCompare)
        } else {
            None
        },
        Opcode::PsaGenerateRandom => match dec_bytes_only(s) {
            Option::None => Option::None,
            Option::Some(random_bytes) => Some(ResultView::PsaGenerateRandom { random_bytes }),
        },
    }
}

// Round trips of the list bodies.

proof fn lemma_rt_list_body_opcodes(elems: Seq<Opcode>)
    requires
        elems.len() <= u32::MAX,
    ensures
        dec_list_body(enc_list(elems, opcode_item_enc()), opcode_item_read()) == Some(elems),
{
    let empty = Seq::<u8>::empty();
    let f = opcode_item_enc();
    let g = opcode_item_read();
    assert forall|a: Opcode, r: Seq<u8>| elems.contains(a) implies #[trigger] g(f(a) + r) == Some(
        (a, r),
    ) by {
        lemma_read_u8(opcode_tag(a), r);
    }
    assert(enc_list(elems, f) =~= enc_list(elems, f) + empty);
    lemma_read_list(elems, f, g, empty);
}

proof fn lemma_rt_list_body_auths(elems: Seq<AuthType>)
    requires
        elems.len() <= u32::MAX,
    ensures
        dec_list_body(enc_list(elems, auth_item_enc()), auth_item_read()) == Some(elems),
{
    let empty = Seq::<u8>::empty();
    let f = auth_item_enc();
    let g = auth_item_read();
    assert forall|a: AuthType, r: Seq<u8>| elems.contains(a) implies #[trigger] g(f(a) + r)
        == Some((a, r)) by {
        lemma_read_u8(auth_tag(a), r);
    }
    assert(enc_list(elems, f) =~= enc_list(elems, f) + empty);
    lemma_read_list(elems, f, g, empty);
}

proof fn lemma_rt_list_body_keys(elems: Seq<Seq<char>>)
    requires
        elems.len() <= u32::MAX,
        forall|i: int| 0 <= i < elems.len() ==> str_encodable(#[trigger] elems[i]),
    ensures
        dec_list_body(enc_list(elems, str_item_enc()), str_item_read()) == Some(elems),
{
    let empty = Seq::<u8>::empty();
    let f = str_item_enc();
    let g = str_item_read();
    assert forall|a: Seq<char>, r: Seq<u8>| elems.contains(a) implies #[trigger] g(f(a) + r)
        == Some((a, r)) by {
        let i = choose|i: int| 0 <= i < elems.len() && elems[i] == a;
        assert(str_encodable(elems[i]));
        lemma_read_str(a, r);
    }
    assert(enc_list(elems, f) =~= enc_list(elems, f) + empty);
    lemma_read_list(elems, f, g, empty);
}

proof fn lemma_rt_list_body_providers(elems: Seq<ProviderInfoView>)
    requires
        elems.len() <= u32::MAX,
        forall|i: int| 0 <= i < elems.len() ==> provider_info_encodable(#[trigger] elems[i]),
    ensures
        dec_list_body(enc_list(elems, provider_item_enc()), provider_item_read()) == Some(elems),
{
    let empty = Seq::<u8>::empty();
    let f = provider_item_enc();
    let g = provider_item_read();
    assert forall|a: ProviderInfoView, r: Seq<u8>| elems.contains(a) implies #[trigger] g(f(a) + r)
        == Some((a, r)) by {
        let i = choose|i: int| 0 <= i < elems.len() && elems[i] == a;
        assert(provider_info_encodable(elems[i]));
        lemma_read_provider_info(a, r);
    }
    assert(enc_list(elems, f) =~= enc_list(elems, f) + empty);
    lemma_read_list(elems, f, g, empty);
}

proof fn lemma_rt_ping(maj: u8, min: u8)
    ensures
        spec_body_to_result(enc_u8(maj) + enc_u8(min), Opcode::Ping) == Some(
            ResultView::Ping { supp_version_maj: maj, supp_version_min: min },
        ),
{
    let empty = Seq::<u8>::empty();
    let t1 = enc_u8(min);
    lemma_read_u8(maj, t1);
    assert(t1 =~= enc_u8(min) + empty);
    lemma_read_u8(min, empty);
}

/// Decoding inverts encoding for results: for every encodable result, the
/// canonical body decodes back to exactly that result under its own opcode.
#[verifier::spinoff_prover]
#[verifier::rlimit(100)]
pub proof fn lemma_result_round_trip(v: ResultView)
    requires
        result_encodable(v),
    ensures
        spec_body_to_result(spec_result_to_body(v), result_view_opcode(v)) == Some(v),
{
    match v {
        ResultView::Ping { supp_version_maj, supp_version_min } => {
            lemma_rt_ping(supp_version_maj, supp_version_min);
        },
        ResultView::ListProviders { providers } => {
            lemma_rt_list_body_providers(providers);
        },
        ResultView::ListOpcodes { opcodes } => {
            lemma_rt_list_body_opcodes(opcodes);
        },
        ResultView::ListAuthenticators { authenticators } => {
            lemma_rt_list_body_auths(authenticators);
        },
        ResultView::ListKeys { keys } => {
            lemma_rt_list_body_keys(keys);
        },
        ResultView::PsaGenerateKey => {},
        ResultView::PsaImportKey => {},
        ResultView::PsaExportPublicKey { data } => {
            lemma_rt_bytes_only(data);
        },
        ResultView::PsaExportKey { data } => {
            lemma_rt_bytes_only(data);
        },
        ResultView::PsaDestroyKey => {},
        ResultView::PsaSignHash { signature } => {
            lemma_rt_bytes_only(signature);
        },
        ResultView::PsaVerifyHash => {},
        ResultView::PsaAsymmetricEncrypt { ciphertext } => {
            lemma_rt_bytes_only(ciphertext);
        },
        ResultView::PsaAsymmetricDecrypt { plaintext } => {
            lemma_rt_bytes_only(plaintext);
        },
        ResultView::PsaAeadEncrypt { ciphertext } => {
            lemma_rt_bytes_only(ciphertext);
        },
        ResultView::PsaAeadDecrypt { plaintext } => {
            lemma_rt_bytes_only(plaintext);
        },
        ResultView::PsaRawKeyAgreement { shared_secret } => {
            lemma_rt_bytes_only(shared_secret);
        },
        ResultView::PsaHashCompute { hash } => {
            lemma_rt_bytes_only(hash);
        },
        ResultView::PsaHashCompare => {},
        ResultView::PsaGenerateRandom { random_bytes } => {
            lemma_rt_bytes_only(random_bytes);
        },
    }
}


// ---------------------------------------------------------------------------
// Executable result codec.
// ---------------------------------------------------------------------------

/// Appends one provider descriptor; reports failure when a field exceeds its
/// length prefix.
fn write_provider_info(out: &mut Vec<u8>, p: &ProviderInfo) -> (ok: bool)
    ensures
        ok == provider_info_encodable(p@),
        ok ==> final(out)@ == old(out)@ + enc_provider_info(p@),
{
    if !write_bytes(out, &p.uuid) {
        return false;
    }
    if !write_str(out, &p.description) {
        return false;
    }
    if !write_str(out, &p.vendor) {
        return false;
    }
    write_u8(out, p.version_maj);
    write_u8(out, p.version_min);
    write_u8(out, p.version_rev);
    write_u8(out, provider_to_u8(p.id));
    assert(out@ =~= old(out)@ + enc_provider_info(p@));
    true
}

/// Reads one provider descriptor.
fn read_provider_info_at(s: &Vec<u8>, pos: usize) -> (r: Option<(ProviderInfo, usize)>)
    requires
        pos <= s@.len(),
    ensures
        match r {
            Option::Some((v, p)) => pos <= p <= s@.len() && read_provider_info(s@.skip(pos as int))
                == Some((v@, s@.skip(p as int))),
            Option::None => read_provider_info(s@.skip(pos as int)) is None,
        },
{
    let (uuid, p1) = match exec_read_bytes(s, pos) {
        Option::Some(x) => x,
        Option::None => {
            return None;
        },
    };
    let (description, p2) = match exec_read_str(s, p1) {
        Option::Some(x) => x,
        Option::None => {
            return None;
        },
    };
    let (vendor, p3) = match exec_read_str(s, p2) {
        Option::Some(x) => x,
        Option::None => {
            return None;
        },
    };
    let (version_maj, p4) = match exec_read_u8(s, p3) {
        Option::Some(x) => x,
        Option::None => {
            return None;
        },
    };
    let (version_min, p5) = match exec_read_u8(s, p4) {
        Option::Some(x) => x,
        Option::None => {
            return None;
        },
    };
    let (version_rev, p6) = match exec_read_u8(s, p5) {
        Option::Some(x) => x,
        Option::None => {
            return None;
        },
    };
    let (idt, p7) = match exec_read_u8(s, p6) {
        Option::Some(x) => x,
        Option::None => {
            return None;
        },
    };
    let id = match provider_from_u8(idt) {
        Option::Some(x) => x,
        Option::None => {
            return None;
        },
    };
    Some((ProviderInfo { uuid, description, vendor, version_maj, version_min, version_rev, id }, p7))
}

/// Encodes a result into a response body, or reports that a field exceeds
/// the 32-bit length prefix.
#[verifier::spinoff_prover]
#[verifier::rlimit(100)]
pub fn result_to_body(res: &NativeResult) -> (r: Result<Vec<u8>, ResponseStatus>)
    ensures
        match r {
            Result::Ok(b) => result_encodable(res@) && b@ == spec_result_to_body(res@),
            Result::Err(e) => !result_encodable(res@) && e == ResponseStatus::SerializingBodyFailed,
        },
{
    let mut out: Vec<u8> = Vec::new();
    match res {
        NativeResult::Ping(pr) => {
            write_u8(&mut out, pr.supp_version_maj);
            write_u8(&mut out, pr.supp_version_min);
        },
        NativeResult::ListProviders { providers } => {
            let ghost elems = providers@.map_values(|p: ProviderInfo| p@);
            let ghost f = provider_item_enc();
            assert(elems.len() == providers@.len());
            assert(res@ == (ResultView::ListProviders { providers: elems }));
            if providers.len() > u32::MAX as usize {
                assert(!result_encodable(res@));
                return Err(ResponseStatus::SerializingBodyFailed);
            }
            write_u32(&mut out, providers.len() as u32);
            let ghost base = out@;
            let mut i: usize = 0;
            while i < providers.len()
                invariant
                    0 <= i <= providers.len(),
                    elems == providers@.map_values(|p: ProviderInfo| p@),
                    res@ == (ResultView::ListProviders { providers: elems }),
                    f == provider_item_enc(),
                    out@ == base + enc_list_items(elems.take(i as int), f),
                    forall|j: int| 0 <= j < i ==> provider_info_encodable(#[trigger] elems[j]),
                decreases providers.len() - i,
            {
                assert(elems[i as int] == providers@[i as int]@);
                if !write_provider_info(&mut out, &providers[i]) {
                    assert(!provider_info_encodable(elems[i as int]));
                    assert(!result_encodable(res@));
                    return Err(ResponseStatus::SerializingBodyFailed);
                }
                proof {
                    lemma_enc_list_items_push(elems.take(i as int), elems[i as int], f);
                    assert(elems.take(i as int).push(elems[i as int]) =~= elems.take(
                        i as int + 1,
                    ));
                    assert(out@ =~= base + enc_list_items(elems.take(i as int + 1), f));
                }
                i = i + 1;
            }
            proof {
                assert(elems.take(providers.len() as int) =~= elems);
                assert(out@ =~= enc_list(elems, f));
                assert(result_encodable(res@));
            }
        },
        NativeResult::ListOpcodes { opcodes } => {
            let ghost elems = opcodes@;
            let ghost f = opcode_item_enc();
            if opcodes.len() > u32::MAX as usize {
                return Err(ResponseStatus::SerializingBodyFailed);
            }
            write_u32(&mut out, opcodes.len() as u32);
            let ghost base = out@;
            let mut i: usize = 0;
            while i < opcodes.len()
                invariant
                    0 <= i <= opcodes.len(),
                    elems == opcodes@,
                    f == opcode_item_enc(),
                    out@ == base + enc_list_items(elems.take(i as int), f),
                decreases opcodes.len() - i,
            {
                write_u8(&mut out, opcode_to_u8(opcodes[i]));
                proof {
                    lemma_enc_list_items_push(elems.take(i as int), elems[i as int], f);
                    assert(elems.take(i as int).push(elems[i as int]) =~= elems.take(
                        i as int + 1,
                    ));
                    assert(out@ =~= base + enc_list_items(elems.take(i as int + 1), f));
                }
                i = i + 1;
            }
            proof {
                assert(elems.take(opcodes.len() as int) =~= elems);
                assert(out@ =~= enc_list(elems, f));
            }
        },
        NativeResult::ListAuthenticators { authenticators } => {
            let ghost elems = authenticators@;
            let ghost f = auth_item_enc();
            if authenticators.len() > u32::MAX as usize {
                return Err(ResponseStatus::SerializingBodyFailed);
            }
            write_u32(&mut out, authenticators.len() as u32);
            let ghost base = out@;
            let mut i: usize = 0;
            while i < authenticators.len()
                invariant
                    0 <= i <= authenticators.len(),
                    elems == authenticators@,
                    f == auth_item_enc(),
                    out@ == base + enc_list_items(elems.take(i as int), f),
                decreases authenticators.len() - i,
            {
                write_u8(&mut out, auth_to_u8(authenticators[i]));
                proof {
                    lemma_enc_list_items_push(elems.take(i as int), elems[i as int], f);
                    assert(elems.take(i as int).push(elems[i as int]) =~= elems.take(
                        i as int + 1,
                    ));
                    assert(out@ =~= base + enc_list_items(elems.take(i as int + 1), f));
                }
                i = i + 1;
            }
            proof {
                assert(elems.take(authenticators.len() as int) =~= elems);
                assert(out@ =~= enc_list(elems, f));
            }
        },
        NativeResult::ListKeys { keys } => {
            let ghost elems = keys@.map_values(|k: String| k@);
            let ghost f = str_item_enc();
            assert(elems.len() == keys@.len());
            assert(res@ == (ResultView::ListKeys { keys: elems }));
            if keys.len() > u32::MAX as usize {
                assert(!result_encodable(res@));
                return Err(ResponseStatus::SerializingBodyFailed);
            }
            write_u32(&mut out, keys.len() as u32);
            let ghost base = out@;
            let mut i: usize = 0;
            while i < keys.len()
                invariant
                    0 <= i <= keys.len(),
                    elems == keys@.map_values(|k: String| k@),
                    res@ == (ResultView::ListKeys { keys: elems }),
                    f == str_item_enc(),
                    out@ == base + enc_list_items(elems.take(i as int), f),
                    forall|j: int| 0 <= j < i ==> str_encodable(#[trigger] elems[j]),
                decreases keys.len() - i,
            {
                assert(elems[i as int] == keys@[i as int]@);
                if !write_str(&mut out, &keys[i]) {
                    assert(!str_encodable(elems[i as int]));
                    assert(!result_encodable(res@));
                    return Err(ResponseStatus::SerializingBodyFailed);
                }
                proof {
                    lemma_enc_list_items_push(elems.take(i as int), elems[i as int], f);
                    assert(elems.take(i as int).push(elems[i as int]) =~= elems.take(
                        i as int + 1,
                    ));
                    assert(out@ =~= base + enc_list_items(elems.take(i as int + 1), f));
                }
                i = i + 1;
            }
            proof {
                assert(elems.take(keys.len() as int) =~= elems);
                assert(out@ =~= enc_list(elems, f));
                assert(result_encodable(res@));
            }
        },
        NativeResult::PsaGenerateKey => {},
        NativeResult::PsaImportKey => {},
        NativeResult::PsaExportPublicKey { data } => {
            if !write_bytes(&mut out, data) {
                return Err(ResponseStatus::SerializingBodyFailed);
            }
        },
        NativeResult::PsaExportKey { data } => {
            if !write_bytes(&mut out, data) {
                return Err(ResponseStatus::SerializingBodyFailed);
            }
        },
        NativeResult::PsaDestroyKey => {},
        NativeResult::PsaSignHash { signature } => {
            if !write_bytes(&mut out, signature) {
                return Err(ResponseStatus::SerializingBodyFailed);
            }
        },
        NativeResult::PsaVerifyHash => {},
        NativeResult::PsaAsymmetricEncrypt { ciphertext } => {
            if !write_bytes(&mut out, ciphertext) {
                return Err(ResponseStatus::SerializingBodyFailed);
            }
        },
        NativeResult::PsaAsymmetricDecrypt { plaintext } => {
            if !write_bytes(&mut out, plaintext) {
                return Err(ResponseStatus::SerializingBodyFailed);
            }
        },
        NativeResult::PsaAeadEncrypt { ciphertext } => {
            if !write_bytes(&mut out, ciphertext) {
                return Err(ResponseStatus::SerializingBodyFailed);
            }
        },
        NativeResult::PsaAeadDecrypt { plaintext } => {
            if !write_bytes(&mut out, plaintext) {
                return Err(ResponseStatus::SerializingBodyFailed);
            }
        },
        NativeResult::PsaRawKeyAgreement { shared_secret } => {
            if !write_bytes(&mut out, shared_secret) {
                return Err(ResponseStatus::SerializingBodyFailed);
            }
        },
        NativeResult::PsaHashCompute { hash } => {
            if !write_bytes(&mut out, hash) {
                return Err(ResponseStatus::SerializingBodyFailed);
            }
        },
        NativeResult::PsaHashCompare => {},
        NativeResult::PsaGenerateRandom { random_bytes } => {
            if !write_bytes(&mut out, random_bytes) {
                return Err(ResponseStatus::SerializingBodyFailed);
            }
        },
    }
    assert(out@ =~= spec_result_to_body(res@));
    Ok(out)
}


/// Prefixing then prepending one more item is prepending the pushed prefix.
pub proof fn lemma_prepend_push<A>(prefix: Seq<A>, a: A, o: Option<(Seq<A>, Seq<u8>)>)
    ensures
        prepend_items(prefix, prepend_items(seq![a], o)) == prepend_items(prefix.push(a), o),
{
    match o {
        Option::None => {},
        Option::Some((items, rest)) => {
            assert(prefix + (seq![a] + items) =~= prefix.push(a) + items);
        },
    }
}

/// Decodes a response body into the result named by the header opcode, or
/// reports that the body is malformed for that opcode.
#[verifier::spinoff_prover]
#[verifier::rlimit(100)]
pub fn body_to_result(body: &Vec<u8>, opcode: Opcode) -> (r: Result<NativeResult, ResponseStatus>)
    ensures
        match r {
            Result::Ok(res) => spec_body_to_result(body@, opcode) == Some(res@)
                && spec_opcode_of_result(res) == opcode,
            Result::Err(e) => spec_body_to_result(body@, opcode) is None && e
                == ResponseStatus::DeserializingBodyFailed,
        },
{
    proof {
        assert(body@.skip(0) =~= body@);
    }
    match opcode {
        Opcode::Ping => {
            match exec_read_u8(body, 0) {
                Option::None => Err(ResponseStatus::DeserializingBodyFailed),
                Option::Some((supp_version_maj, p)) => match exec_read_u8(body, p) {
                    Option::None => Err(ResponseStatus::DeserializingBodyFailed),
                    Option::Some((supp_version_min, p2)) => {
                        if p2 == body.len() {
                            assert(body@.skip(p2 as int).len() == 0);
                            Ok(NativeResult::Ping(ResultPing { supp_version_maj, supp_version_min }))
                        } else {
                            Err(ResponseStatus::DeserializingBodyFailed)
                        }
                    },
                },
            }
        },
        Opcode::ListProviders => {
            let ghost g = provider_item_read();
            match exec_read_u32(body, 0) {
                Option::None => Err(ResponseStatus::DeserializingBodyFailed),
                Option::Some((n, p0)) => {
                    let mut acc: Vec<ProviderInfo> = Vec::new();
                    let mut pos: usize = p0;
                    let mut i: u32 = 0;
                    while i < n
                        invariant
                            0 <= i <= n,
                            pos <= body@.len(),
                            opcode == Opcode::ListProviders,
                            read_u32(body@) == Some((n, body@.skip(p0 as int))),
                            g == provider_item_read(),
                            read_list_items(body@.skip(p0 as int), g, n as nat) == prepend_items(
                                acc@.map_values(|x: ProviderInfo| x@),
                                read_list_items(body@.skip(pos as int), g, (n - i) as nat),
                            ),
                        decreases n - i,
                    {
                        let (k, p2) = match read_provider_info_at(body, pos) {
                            Option::None => {
                                return Err(ResponseStatus::DeserializingBodyFailed);
                            },
                            Option::Some(x) => x,
                        };
                        proof {
                            assert(g(body@.skip(pos as int)) == Some((k@, body@.skip(p2 as int))));
                            lemma_prepend_push(
                                acc@.map_values(|x: ProviderInfo| x@),
                                k@,
                                read_list_items(body@.skip(p2 as int), g, (n - i - 1) as nat),
                            );
                            assert(acc@.push(k).map_values(|x: ProviderInfo| x@) =~= acc@.map_values(
                                |x: ProviderInfo| x@,
                            ).push(k@));
                        }
                        acc.push(k);
                        pos = p2;
                        i = i + 1;
                    }
                    assert(read_list_items(body@.skip(p0 as int), g, n as nat) == Some(
                        (acc@.map_values(|x: ProviderInfo| x@), body@.skip(pos as int)),
                    ));
                    if pos == body.len() {
                        assert(body@.skip(pos as int).len() == 0);
                        Ok(NativeResult::ListProviders { providers: acc })
                    } else {
                        Err(ResponseStatus::DeserializingBodyFailed)
                    }
                },
            }
        },
        Opcode::ListOpcodes => {
            let ghost g = opcode_item_read();
            match exec_read_u32(body, 0) {
                Option::None => Err(ResponseStatus::DeserializingBodyFailed),
                Option::Some((n, p0)) => {
                    let mut acc: Vec<Opcode> = Vec::new();
                    let mut pos: usize = p0;
                    let mut i: u32 = 0;
                    while i < n
                        invariant
                            0 <= i <= n,
                            pos <= body@.len(),
                            opcode == Opcode::ListOpcodes,
                            read_u32(body@) == Some((n, body@.skip(p0 as int))),
                            g == opcode_item_read(),
                            read_list_items(body@.skip(p0 as int), g, n as nat) == prepend_items(
                                acc@,
                                read_list_items(body@.skip(pos as int), g, (n - i) as nat),
                            ),
                        decreases n - i,
                    {
                        let (k, p2) = match exec_read_u8(body, pos) {
                            Option::None => {
                                return Err(ResponseStatus::DeserializingBodyFailed);
                            },
                            Option::Some((x, p2)) => match opcode_from_u8(x) {
                                Option::None => {
                                    return Err(ResponseStatus::DeserializingBodyFailed);
                                },
                                Option::Some(k) => (k, p2),
                            },
                        };
                        proof {
                            assert(g(body@.skip(pos as int)) == Some((k, body@.skip(p2 as int))));
                            lemma_prepend_push(
                                acc@,
                                k,
                                read_list_items(body@.skip(p2 as int), g, (n - i - 1) as nat),
                            );
                        }
                        acc.push(k);
                        pos = p2;
                        i = i + 1;
                    }
                    assert(read_list_items(body@.skip(p0 as int), g, n as nat) == Some(
                        (acc@, body@.skip(pos as int)),
                    ));
                    if pos == body.len() {
                        assert(body@.skip(pos as int).len() == 0);
                        Ok(NativeResult::ListOpcodes { opcodes: acc })
                    } else {
                        Err(ResponseStatus::DeserializingBodyFailed)
                    }
                },
            }
        },
        Opcode::ListAuthenticators => {
            let ghost g = auth_item_read();
            match exec_read_u32(body, 0) {
                Option::None => Err(ResponseStatus::DeserializingBodyFailed),
                Option::Some((n, p0)) => {
                    let mut acc: Vec<AuthType> = Vec::new();
                    let mut pos: usize = p0;
                    let mut i: u32 = 0;
                    while i < n
                        invariant
                            0 <= i <= n,
                            pos <= body@.len(),
                            opcode == Opcode::ListAuthenticators,
                            read_u32(body@) == Some((n, body@.skip(p0 as int))),
                            g == auth_item_read(),
                            read_list_items(body@.skip(p0 as int), g, n as nat) == prepend_items(
                                acc@,
                                read_list_items(body@.skip(pos as int), g, (n - i) as nat),
                            ),
                        decreases n - i,
                    {
                        let (k, p2) = match exec_read_u8(body, pos) {
                            Option::None => {
                                return Err(ResponseStatus::DeserializingBodyFailed);
                            },
                            Option::Some((x, p2)) => match auth_from_u8(x) {
                                Option::None => {
                                    return Err(ResponseStatus::DeserializingBodyFailed);
                                },
                                Option::Some(k) => (k, p2),
                            },
                        };
                        proof {
                            assert(g(body@.skip(pos as int)) == Some((k, body@.skip(p2 as int))));
                            lemma_prepend_push(
                                acc@,
                                k,
                                read_list_items(body@.skip(p2 as int), g, (n - i - 1) as nat),
                            );
                        }
                        acc.push(k);
                        pos = p2;
                        i = i + 1;
                    }
                    assert(read_list_items(body@.skip(p0 as int), g, n as nat) == Some(
                        (acc@, body@.skip(pos as int)),
                    ));
                    if pos == body.len() {
                        assert(body@.skip(pos as int).len() == 0);
                        Ok(NativeResult::ListAuthenticators { authenticators: acc })
                    } else {
                        Err(ResponseStatus::DeserializingBodyFailed)
                    }
                },
            }
        },
        Opcode::ListKeys => {
            let ghost g = str_item_read();
            match exec_read_u32(body, 0) {
                Option::None => Err(ResponseStatus::DeserializingBodyFailed),
                Option::Some((n, p0)) => {
                    let mut acc: Vec<String> = Vec::new();
                    let mut pos: usize = p0;
                    let mut i: u32 = 0;
                    while i < n
                        invariant
                            0 <= i <= n,
                            pos <= body@.len(),
                            opcode == Opcode::ListKeys,
                            read_u32(body@) == Some((n, body@.skip(p0 as int))),
                            g == str_item_read(),
                            read_list_items(body@.skip(p0 as int), g, n as nat) == prepend_items(
                                acc@.map_values(|x: String| x@),
                                read_list_items(body@.skip(pos as int), g, (n - i) as nat),
                            ),
                        decreases n - i,
                    {
                        let (k, p2) = match exec_read_str(body, pos) {
                            Option::None => {
                                return Err(ResponseStatus::DeserializingBodyFailed);
                            },
                            Option::Some(x) => x,
                        };
                        proof {
                            assert(g(body@.skip(pos as int)) == Some((k@, body@.skip(p2 as int))));
                            lemma_prepend_push(
                                acc@.map_values(|x: String| x@),
                                k@,
                                read_list_items(body@.skip(p2 as int), g, (n - i - 1) as nat),
                            );
                            assert(acc@.push(k).map_values(|x: String| x@) =~= acc@.map_values(
                                |x: String| x@,
                            ).push(k@));
                        }
                        acc.push(k);
                        pos = p2;
                        i = i + 1;
                    }
                    assert(read_list_items(body@.skip(p0 as int), g, n as nat) == Some(
                        (acc@.map_values(|x: String| x@), body@.skip(pos as int)),
                    ));
                    if pos == body.len() {
                        assert(body@.skip(pos as int).len() == 0);
                        Ok(NativeResult::ListKeys { keys: acc })
                    } else {
                        Err(ResponseStatus::DeserializingBodyFailed)
                    }
                },
            }
        },
        Opcode::PsaGenerateKey => {
            if body.len() == 0 {
                Ok(NativeResult::PsaGenerateKey)
            } else {
                Err(ResponseStatus::DeserializingBodyFailed)
            }
        },
        Opcode::PsaImportKey => {
            if body.len() == 0 {
                Ok(NativeResult::PsaImportKey)
            } else {
                Err(ResponseStatus::DeserializingBodyFailed)
            }
        },
        Opcode::PsaExportPublicKey => {
            match exec_read_bytes(body, 0) {
                Option::None => Err(ResponseStatus::DeserializingBodyFailed),
                Option::Some((data, p)) => {
                    if p == body.len() {
                        assert(body@.skip(p as int).len() == 0);
                        Ok(NativeResult::PsaExportPublicKey { data })
                    } else {
                        Err(ResponseStatus::DeserializingBodyFailed)
                    }
                },
            }
        },
        Opcode::PsaExportKey => {
            match exec_read_bytes(body, 0) {
                Option::None => Err(ResponseStatus::DeserializingBodyFailed),
                Option::Some((data, p)) => {
                    if p == body.len() {
                        assert(body@.skip(p as int).len() == 0);
                        Ok(NativeResult::PsaExportKey { data })
                    } else {
                        Err(ResponseStatus::DeserializingBodyFailed)
                    }
                },
            }
        },
        Opcode::PsaDestroyKey => {
            if body.len() == 0 {
                Ok(NativeResult::PsaDestroyKey)
            } else {
                Err(ResponseStatus::DeserializingBodyFailed)
            }
        },
        Opcode::PsaSignHash => {
            match exec_read_bytes(body, 0) {
                Option::None => Err(ResponseStatus::DeserializingBodyFailed),
                Option::Some((signature, p)) => {
                    if p == body.len() {
                        assert(body@.skip(p as int).len() == 0);
                        Ok(NativeResult::PsaSignHash { signature })
                    } else {
                        Err(ResponseStatus::DeserializingBodyFailed)
                    }
                },
            }
        },
        Opcode::PsaVerifyHash => {
            if body.len() == 0 {
                Ok(NativeResult::PsaVerifyHash)
            } else {
                Err(ResponseStatus::DeserializingBodyFailed)
            }
        },
        Opcode::PsaAsymmetricEncrypt => {
            match exec_read_bytes(body, 0) {
                Option::None => Err(ResponseStatus::DeserializingBodyFailed),
                Option::Some((ciphertext, p)) => {
                    if p == body.len() {
                        assert(body@.skip(p as int).len() == 0);
                        Ok(NativeResult::PsaAsymmetricEncrypt { ciphertext })
                    } else {
                        Err(ResponseStatus::DeserializingBodyFailed)
                    }
                },
            }
        },
        Opcode::PsaAsymmetricDecrypt => {
            match exec_read_bytes(body, 0) {
                Option::None => Err(ResponseStatus::DeserializingBodyFailed),
                Option::Some((plaintext, p)) => {
                    if p == body.len() {
                        assert(body@.skip(p as int).len() == 0);
                        Ok(NativeResult::PsaAsymmetricDecrypt { plaintext })
                    } else {
                        Err(ResponseStatus::DeserializingBodyFailed)
                    }
                },
            }
        },
        Opcode::PsaAeadEncrypt => {
            match exec_read_bytes(body, 0) {
                Option::None => Err(ResponseStatus::DeserializingBodyFailed),
                Option::Some((ciphertext, p)) => {
                    if p == body.len() {
                        assert(body@.skip(p as int).len() == 0);
                        Ok(NativeResult::PsaAeadEncrypt { ciphertext })
                    } else {
                        Err(ResponseStatus::DeserializingBodyFailed)
                    }
                },
            }
        },
        Opcode::PsaAeadDecrypt => {
            match exec_read_bytes(body, 0) {
                Option::None => Err(ResponseStatus::DeserializingBodyFailed),
                Option::Some((plaintext, p)) => {
                    if p == body.len() {
                        assert(body@.skip(p as int).len() == 0);
                        Ok(NativeResult::PsaAeadDecrypt { plaintext })
                    } else {
                        Err(ResponseStatus::DeserializingBodyFailed)
                    }
                },
            }
        },
        Opcode::PsaRawKeyAgreement => {
            match exec_read_bytes(body, 0) {
                Option::None => Err(ResponseStatus::DeserializingBodyFailed),
                Option::Some((shared_secret, p)) => {
                    if p == body.len() {
                        assert(body@.skip(p as int).len() == 0);
                        Ok(NativeResult::PsaRawKeyAgreement { shared_secret })
                    } else {
                        Err(ResponseStatus::DeserializingBodyFailed)
                    }
                },
            }
        },
        Opcode::PsaHashCompute => {
            match exec_read_bytes(body, 0) {
                Option::None => Err(ResponseStatus::DeserializingBodyFailed),
                Option::Some((hash, p)) => {
                    if p == body.len() {
                        assert(body@.skip(p as int).len() == 0);
                        Ok(NativeResult::PsaHashCompute { hash })
                    } else {
                        Err(ResponseStatus::DeserializingBodyFailed)
                    }
                },
            }
        },
        Opcode::PsaHashCompare => {
            if body.len() == 0 {
                Ok(NativeResult::PsaHashCompare)
            } else {
                Err(ResponseStatus::DeserializingBodyFailed)
            }
        },
        Opcode::PsaGenerateRandom => {
            match exec_read_bytes(body, 0) {
                Option::None => Err(ResponseStatus::DeserializingBodyFailed),
                Option::Some((random_bytes, p)) => {
                    if p == body.len() {
                        assert(body@.skip(p as int).len() == 0);
                        Ok(NativeResult::PsaGenerateRandom { random_bytes })
                    } else {
                        Err(ResponseStatus::DeserializingBodyFailed)
                    }
                },
            }
        },
    }
}


/// The body encoder/decoder a back-end handler is configured with. This
/// crate ships its one canonical serialization; the methods are the module
/// functions above.
pub struct Converter {}

impl Converter {
    pub fn new() -> Converter {
        Converter {  }
    }

    pub fn body_to_operation(&self, body: &Vec<u8>, opcode: Opcode) -> (r: Result<
        NativeOperation,
        ResponseStatus,
    >)
        ensures
            match r {
                Result::Ok(op) => spec_body_to_operation(body@, opcode) == Some(op@)
                    && spec_opcode_of_operation(op) == opcode,
                Result::Err(e) => spec_body_to_operation(body@, opcode) is None && e
                    == ResponseStatus::DeserializingBodyFailed,
            },
    {
        body_to_operation(body, opcode)
    }

    pub fn operation_to_body(&self, op: &NativeOperation) -> (r: Result<Vec<u8>, ResponseStatus>)
        ensures
            match r {
                Result::Ok(b) => op_encodable(op@) && b@ == spec_operation_to_body(op@),
                Result::Err(e) => !op_encodable(op@) && e == ResponseStatus::SerializingBodyFailed,
            },
    {
        operation_to_body(op)
    }

    pub fn body_to_result(&self, body: &Vec<u8>, opcode: Opcode) -> (r: Result<
        NativeResult,
        ResponseStatus,
    >)
        ensures
            match r {
                Result::Ok(res) => spec_body_to_result(body@, opcode) == Some(res@)
                    && spec_opcode_of_result(res) == opcode,
                Result::Err(e) => spec_body_to_result(body@, opcode) is None && e
                    == ResponseStatus::DeserializingBodyFailed,
            },
    {
        body_to_result(body, opcode)
    }

    pub fn result_to_body(&self, res: &NativeResult) -> (r: Result<Vec<u8>, ResponseStatus>)
        ensures
            match r {
                Result::Ok(b) => result_encodable(res@) && b@ == spec_result_to_body(res@),
                Result::Err(e) => !result_encodable(res@) && e
                    == ResponseStatus::SerializingBodyFailed,
            },
    {
        result_to_body(res)
    }
}

} // verus!
