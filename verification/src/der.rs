//! The DER form of an RSA public key: the ASN.1 sequence of two integers,
//! modulus then public exponent. Import decodes this form; public-key
//! export produces it. Both integers travel as unsigned big-endian byte
//! strings: encoding trims leading zeroes and prefixes a zero sign byte
//! where the top bit is set, decoding strips that sign byte back off.
//! Lengths up to 65535 bytes are supported, which covers every RSA key the
//! provider can hold.

use vstd::prelude::*;

verus! {

/// The byte string with its leading zeroes removed.
pub open spec fn trim_zeros(b: Seq<u8>) -> Seq<u8>
    decreases b.len(),
{
    if b.len() > 0 && b[0] == 0 {
        trim_zeros(b.drop_first())
    } else {
        b
    }
}

/// The content bytes of the DER integer for an unsigned big-endian value:
/// minimal, with a zero sign byte when the top bit is set.
pub open spec fn der_int_content(b: Seq<u8>) -> Seq<u8> {
    let t = trim_zeros(b);
    if t.len() == 0 {
        seq![0u8]
    } else if t[0] >= 0x80 {
        seq![0u8] + t
    } else {
        t
    }
}

/// DER length octets for lengths up to 65535.
pub open spec fn enc_der_len(n: nat) -> Seq<u8> {
    if n < 0x80 {
        seq![n as u8]
    } else if n < 0x100 {
        seq![0x81u8, n as u8]
    } else {
        seq![0x82u8, (n / 0x100) as u8, (n % 0x100) as u8]
    }
}

/// A full DER integer for an unsigned big-endian value.
pub open spec fn enc_der_int(b: Seq<u8>) -> Seq<u8> {
    seq![0x02u8] + enc_der_len(der_int_content(b).len()) + der_int_content(b)
}

/// Whether the two integers fit the supported length forms.
pub open spec fn rsa_der_encodable(m: Seq<u8>, e: Seq<u8>) -> bool {
    der_int_content(m).len() <= 0xFFFF && der_int_content(e).len() <= 0xFFFF && enc_der_int(m).len()
        + enc_der_int(e).len() <= 0xFFFF
}

/// The DER encoding of an RSA public key.
pub open spec fn spec_rsa_der(m: Seq<u8>, e: Seq<u8>) -> Seq<u8> {
    seq![0x30u8] + enc_der_len((enc_der_int(m) + enc_der_int(e)).len()) + (enc_der_int(m)
        + enc_der_int(e))
}

/// Reads DER length octets.
pub open spec fn read_der_len(s: Seq<u8>) -> Option<(nat, Seq<u8>)> {
    if s.len() < 1 {
        None
    } else if s[0] < 0x80 {
        Some((s[0] as nat, s.skip(1)))
    } else if s[0] == 0x81 {
        if s.len() >= 2 {
            Some((s[1] as nat, s.skip(2)))
        } else {
            None
        }
    } else if s[0] == 0x82 {
        if s.len() >= 3 {
            Some(((s[1] as nat) * 0x100 + (s[2] as nat), s.skip(3)))
        } else {
            None
        }
    } else {
        None
    }
}

/// The unsigned value carried by DER integer content: the sign byte is
/// stripped back off.
pub open spec fn unsigned_of_content(c: Seq<u8>) -> Seq<u8> {
    if c.len() > 1 && c[0] == 0 {
        c.drop_first()
    } else {
        c
    }
}

/// Reads one DER integer and returns its unsigned value.
pub open spec fn read_der_int(s: Seq<u8>) -> Option<(Seq<u8>, Seq<u8>)> {
    if s.len() < 1 || s[0] != 0x02 {
        None
    } else {
        match read_der_len(s.skip(1)) {
            Option::None => Option::None,
            Option::Some((n, rest)) => {
                if n >= 1 && rest.len() >= n {
                    Some((unsigned_of_content(rest.take(n as int)), rest.skip(n as int)))
                } else {
                    None
                }
            },
        }
    }
}

/// Decodes the DER form of an RSA public key into the unsigned modulus and
/// public exponent.
pub open spec fn spec_rsa_der_decode(s: Seq<u8>) -> Option<(Seq<u8>, Seq<u8>)> {
    if s.len() < 1 || s[0] != 0x30 {
        None
    } else {
        match read_der_len(s.skip(1)) {
            Option::None => Option::None,
            Option::Some((n, rest)) => {
                if rest.len() == n {
                    match read_der_int(rest) {
                        Option::None => Option::None,
                        Option::Some((m, rest2)) => match read_der_int(rest2) {
                            Option::None => Option::None,
                            Option::Some((e, rest3)) => {
                                if rest3.len() == 0 {
                                    Some((m, e))
                                } else {
                                    None
                                }
                            },
                        },
                    }
                } else {
                    None
                }
            },
        }
    }
}

/// Index of the first byte that is not a leading zero.
fn trimmed_start(b: &Vec<u8>) -> (r: usize)
    ensures
        r <= b@.len(),
        trim_zeros(b@) == b@.skip(r as int),
{
    let mut i: usize = 0;
    proof {
        assert(b@.skip(0) =~= b@);
    }
    while i < b.len() && b[i] == 0
        invariant
            0 <= i <= b@.len(),
            trim_zeros(b@) == trim_zeros(b@.skip(i as int)),
        decreases b@.len() - i,
    {
        proof {
            assert(b@.skip(i as int).drop_first() =~= b@.skip(i as int + 1));
        }
        i = i + 1;
    }
    proof {
        if i < b.len() {
            assert(b@.skip(i as int)[0] == b@[i as int]);
        }
        assert(trim_zeros(b@.skip(i as int)) == b@.skip(i as int));
    }
    i
}

/// Appends DER length octets.
fn write_der_len(out: &mut Vec<u8>, n: usize)
    requires
        n <= 0xFFFF,
    ensures
        final(out)@ == old(out)@ + enc_der_len(n as nat),
{
    if n < 0x80 {
        out.push(n as u8);
    } else if n < 0x100 {
        out.push(0x81);
        out.push(n as u8);
    } else {
        out.push(0x82);
        out.push((n / 0x100) as u8);
        out.push((n % 0x100) as u8);
    }
    assert(out@ =~= old(out)@ + enc_der_len(n as nat));
}

/// Appends one DER integer for an unsigned big-endian value.
fn write_der_int(out: &mut Vec<u8>, b: &Vec<u8>) -> (ok: bool)
    ensures
        ok == (der_int_content(b@).len() <= 0xFFFF),
        ok ==> final(out)@ == old(out)@ + enc_der_int(b@),
        !ok ==> final(out)@ == old(out)@,
{
    let start = trimmed_start(b);
    let tlen = b.len() - start;
    let sign: usize = if tlen == 0 || b[start] >= 0x80 {
        1
    } else {
        0
    };
    proof {
        let t = trim_zeros(b@);
        assert(t.len() == b@.len() - start);
        if tlen > 0 {
            assert(t[0] == b@[start as int]);
        }
    }
    if tlen > 0xFFFF {
        assert(der_int_content(b@).len() > 0xFFFF);
        return false;
    }
    let clen: usize = if tlen == 0 {
        1
    } else {
        tlen + sign
    };
    assert(clen == der_int_content(b@).len());
    if clen > 0xFFFF {
        return false;
    }
    out.push(0x02);
    write_der_len(out, clen);
    let ghost base = old(out)@ + seq![0x02u8] + enc_der_len(der_int_content(b@).len() as nat);
    if tlen == 0 {
        out.push(0);
        assert(out@ =~= old(out)@ + enc_der_int(b@));
    } else {
        if sign == 1 {
            out.push(0);
            assert(der_int_content(b@).take(1) =~= seq![0u8]);
            assert(out@ =~= base + der_int_content(b@).take(
                der_int_content(b@).len() - (b@.len() - start),
            ));
        } else {
            assert(der_int_content(b@).take(0) =~= Seq::<u8>::empty());
            assert(out@ =~= base + der_int_content(b@).take(
                der_int_content(b@).len() - (b@.len() - start),
            ));
        }
        let mut i: usize = start;
        while i < b.len()
            invariant
                start <= i <= b@.len(),
                trim_zeros(b@) == b@.skip(start as int),
                sign == 1 || sign == 0,
                tlen == b@.len() - start,
                tlen > 0,
                sign == (if b@[start as int] >= 0x80 {
                    1int
                } else {
                    0int
                }),
                base == old(out)@ + seq![0x02u8] + enc_der_len(der_int_content(b@).len() as nat),
                der_int_content(b@).len() == tlen + sign,
                out@ == base + der_int_content(b@).take(
                    der_int_content(b@).len() - (b@.len() - i),
                ),
            decreases b@.len() - i,
        {
            proof {
                let c = der_int_content(b@);
                let t = trim_zeros(b@);
                assert(t[i - start] == b@[i as int]);
                if sign == 1 {
                    assert(c =~= seq![0u8] + t);
                } else {
                    assert(c =~= t);
                }
                assert(c[c.len() - (b@.len() - i)] == b@[i as int]);
                assert(c.take(c.len() - (b@.len() - i)).push(b@[i as int]) =~= c.take(
                    c.len() - (b@.len() - i) + 1,
                ));
            }
            out.push(b[i]);
            i = i + 1;
        }
        proof {
            assert(der_int_content(b@).take(der_int_content(b@).len() as int) =~= der_int_content(
                b@,
            ));
            assert(out@ =~= old(out)@ + enc_der_int(b@));
        }
    }
    true
}

/// Encodes an RSA public key, given as unsigned big-endian modulus and
/// exponent, into its DER form.
pub fn rsa_der_encode(modulus: &Vec<u8>, exponent: &Vec<u8>) -> (r: Option<Vec<u8>>)
    ensures
        match r {
            Option::Some(v) => rsa_der_encodable(modulus@, exponent@) && v@ == spec_rsa_der(
                modulus@,
                exponent@,
            ),
            Option::None => !rsa_der_encodable(modulus@, exponent@),
        },
{
    let mut inner: Vec<u8> = Vec::new();
    if !write_der_int(&mut inner, modulus) {
        return None;
    }
    if !write_der_int(&mut inner, exponent) {
        return None;
    }
    if inner.len() > 0xFFFF {
        return None;
    }
    let mut out: Vec<u8> = Vec::new();
    out.push(0x30);
    write_der_len(&mut out, inner.len());
    out.extend_from_slice(inner.as_slice());
    assert(out@ =~= spec_rsa_der(modulus@, exponent@));
    Some(out)
}

/// Reads DER length octets at a position.
fn exec_read_der_len(s: &Vec<u8>, pos: usize) -> (r: Option<(usize, usize)>)
    requires
        pos <= s@.len(),
    ensures
        match r {
            Option::Some((n, p)) => pos <= p <= s@.len() && read_der_len(s@.skip(pos as int))
                == Some((n as nat, s@.skip(p as int))) && n <= 0xFFFF,
            Option::None => read_der_len(s@.skip(pos as int)) is None,
        },
{
    if s.len() - pos < 1 {
        return None;
    }
    let b0 = s[pos];
    assert(s@.skip(pos as int)[0] == b0);
    if b0 < 0x80 {
        assert(s@.skip(pos as int).skip(1) =~= s@.skip(pos as int + 1));
        Some((b0 as usize, pos + 1))
    } else if b0 == 0x81 {
        if s.len() - pos >= 2 {
            assert(s@.skip(pos as int)[1] == s@[pos as int + 1]);
            assert(s@.skip(pos as int).skip(2) =~= s@.skip(pos as int + 2));
            Some((s[pos + 1] as usize, pos + 2))
        } else {
            None
        }
    } else if b0 == 0x82 {
        if s.len() - pos >= 3 {
            assert(s@.skip(pos as int)[1] == s@[pos as int + 1]);
            assert(s@.skip(pos as int)[2] == s@[pos as int + 2]);
            assert(s@.skip(pos as int).skip(3) =~= s@.skip(pos as int + 3));
            Some(((s[pos + 1] as usize) * 0x100 + (s[pos + 2] as usize), pos + 3))
        } else {
            None
        }
    } else {
        None
    }
}

/// Reads one DER integer at a position and returns its unsigned value.
fn exec_read_der_int(s: &Vec<u8>, pos: usize) -> (r: Option<(Vec<u8>, usize)>)
    requires
        pos <= s@.len(),
    ensures
        match r {
            Option::Some((v, p)) => pos <= p <= s@.len() && read_der_int(s@.skip(pos as int))
                == Some((v@, s@.skip(p as int))),
            Option::None => read_der_int(s@.skip(pos as int)) is None,
        },
{
    if s.len() - pos < 1 {
        return None;
    }
    assert(s@.skip(pos as int)[0] == s@[pos as int]);
    if s[pos] != 0x02 {
        return None;
    }
    assert(s@.skip(pos as int).skip(1) =~= s@.skip(pos as int + 1));
    let (n, p1) = match exec_read_der_len(s, pos + 1) {
        Option::Some(x) => x,
        Option::None => {
            return None;
        },
    };
    if n < 1 || s.len() - p1 < n {
        assert(s@.skip(p1 as int).len() < n || n < 1);
        return None;
    }
    let ghost rest = s@.skip(p1 as int);
    let mut content: Vec<u8> = Vec::new();
    let mut start: usize = p1;
    if n > 1 && s[p1] == 0 {
        start = p1 + 1;
        assert(rest.take(n as int)[0] == s@[p1 as int]);
        assert(unsigned_of_content(rest.take(n as int)) =~= rest.take(n as int).drop_first());
    } else {
        assert(unsigned_of_content(rest.take(n as int)) == rest.take(n as int));
    }
    let send: usize = p1 + n;
    let mut i: usize = start;
    while i < send
        invariant
            p1 <= start <= i <= send <= s@.len(),
            content@ =~= s@.subrange(start as int, i as int),
        decreases send - i,
    {
        content.push(s[i]);
        i = i + 1;
    }
    proof {
        if start == p1 {
            assert(content@ =~= rest.take(n as int));
        } else {
            assert(content@ =~= rest.take(n as int).drop_first());
        }
        assert(rest.skip(n as int) =~= s@.skip(p1 as int + n as int));
    }
    Some((content, p1 + n))
}

/// Decodes the DER form of an RSA public key into its unsigned big-endian
/// modulus and public exponent.
pub fn rsa_der_decode(data: &Vec<u8>) -> (r: Option<(Vec<u8>, Vec<u8>)>)
    ensures
        match r {
            Option::Some((m, e)) => spec_rsa_der_decode(data@) == Some((m@, e@)),
            Option::None => spec_rsa_der_decode(data@) is None,
        },
{
    proof {
        assert(data@.skip(0) =~= data@);
    }
    if data.len() < 1 {
        return None;
    }
    assert(data@[0] == data@.skip(0)[0]);
    if data[0] != 0x30 {
        return None;
    }
    assert(data@.skip(0).skip(1) =~= data@.skip(1));
    let (n, p1) = match exec_read_der_len(data, 1) {
        Option::Some(x) => x,
        Option::None => {
            return None;
        },
    };
    if data.len() - p1 != n {
        assert(data@.skip(p1 as int).len() != n);
        return None;
    }
    let (m, p2) = match exec_read_der_int(data, p1) {
        Option::Some(x) => x,
        Option::None => {
            return None;
        },
    };
    let (e, p3) = match exec_read_der_int(data, p2) {
        Option::Some(x) => x,
        Option::None => {
            return None;
        },
    };
    if p3 == data.len() {
        assert(data@.skip(p3 as int).len() == 0);
        Some((m, e))
    } else {
        None
    }
}

} // verus!
