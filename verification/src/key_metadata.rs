//! Opaque-id bookkeeping for the PKCS#11 provider.
//!
//! Each PKCS#11 key is located on the token by a four-byte opaque id stored
//! in the key-info store; the provider additionally keeps the set of ids in
//! use (`local-ids`). This module holds the helpers that read, allocate and
//! release ids, and the invariant tying the two structures together: the
//! local-id list holds exactly the ids of the stored PKCS#11 entries, each
//! exactly once.

use vstd::prelude::*;
use crate::requests::{ProviderId, ResponseStatus};
use crate::operations::KeyAttributes;
use crate::key_info::{KeyInfoStore, KeyTriple, KeyInfo, KeyTripleView, KeyInfoView};
use crate::codec::{enc_u32, u32_of_be};

verus! {

/// The id spelled by a four-byte opaque-id field.
pub open spec fn id_of_bytes(b: Seq<u8>) -> u32 {
    u32_of_be(b[0], b[1], b[2], b[3])
}

/// The four bytes of an id are read back as that id.
pub proof fn lemma_id_bytes_inverse(id: u32)
    ensures
        enc_u32(id).len() == 4,
        id_of_bytes(enc_u32(id)) == id,
{
    assert(((((id >> 24) as u8) as u32) << 24) | ((((id >> 16) as u8) as u32) << 16) | ((((id
        >> 8) as u8) as u32) << 8) | ((id as u8) as u32) == id) by (bit_vector);
}

/// A four-byte field is the spelling of the id it reads as.
pub proof fn lemma_bytes_id_inverse(b: Seq<u8>)
    requires
        b.len() == 4,
    ensures
        enc_u32(id_of_bytes(b)) == b,
{
    let x = id_of_bytes(b);
    let b0 = b[0];
    let b1 = b[1];
    let b2 = b[2];
    let b3 = b[3];
    assert({
        let y = ((b0 as u32) << 24) | ((b1 as u32) << 16) | ((b2 as u32) << 8) | (b3 as u32);
        (y >> 24) as u8 == b0 && (y >> 16) as u8 == b1 && (y >> 8) as u8 == b2 && y as u8 == b3
    }) by (bit_vector);
    assert(enc_u32(x) =~= b);
}

/// Spells an id as its four-byte opaque-id field.
pub fn id_to_bytes(id: u32) -> (r: Vec<u8>)
    ensures
        r@ == enc_u32(id),
        r@.len() == 4,
{
    let mut r: Vec<u8> = Vec::new();
    crate::codec::write_u32(&mut r, id);
    assert(r@ =~= enc_u32(id));
    r
}

/// Reads a four-byte opaque-id field back as an id.
pub fn bytes_to_id(b: &Vec<u8>) -> (r: u32)
    requires
        b@.len() == 4,
    ensures
        r == id_of_bytes(b@),
{
    ((b[0] as u32) << 24) | ((b[1] as u32) << 16) | ((b[2] as u32) << 8) | (b[3] as u32)
}

/// A stored entry that belongs to the PKCS#11 provider.
pub open spec fn is_p11_entry(m: Map<KeyTripleView, KeyInfoView>, k: KeyTripleView) -> bool {
    m.contains_key(k) && k.provider_id == ProviderId::Pkcs11
}

/// Every PKCS#11 entry carries a well-formed id that is listed.
pub open spec fn entries_listed(m: Map<KeyTripleView, KeyInfoView>, ids: Seq<u32>) -> bool {
    forall|k: KeyTripleView|
        #[trigger] is_p11_entry(m, k) ==> m[k].id.len() == 4 && ids.contains(id_of_bytes(m[k].id))
}

/// Every listed id is the id of some PKCS#11 entry.
pub open spec fn listed_have_entries(m: Map<KeyTripleView, KeyInfoView>, ids: Seq<u32>) -> bool {
    forall|x: u32|
        #[trigger] ids.contains(x) ==> exists|k: KeyTripleView|
            is_p11_entry(m, k) && m[k].id == enc_u32(x)
}

/// No id is listed twice.
pub open spec fn ids_distinct(ids: Seq<u32>) -> bool {
    forall|i: int, j: int| 0 <= i < j < ids.len() ==> ids[i] != ids[j]
}

/// The invariant between the store and the local-id list: every PKCS#11
/// entry carries a well-formed id that is listed, every listed id is some
/// entry's, and no id is listed twice.
pub open spec fn ids_match(m: Map<KeyTripleView, KeyInfoView>, ids: Seq<u32>) -> bool {
    entries_listed(m, ids) && listed_have_entries(m, ids) && ids_distinct(ids)
}

/// No two PKCS#11 entries share an opaque id.
pub open spec fn store_ids_unique(m: Map<KeyTripleView, KeyInfoView>) -> bool {
    forall|k1: KeyTripleView, k2: KeyTripleView|
        #[trigger] is_p11_entry(m, k1) && #[trigger] is_p11_entry(m, k2) && k1 != k2 ==> m[k1].id
            != m[k2].id
}

/// Whether an id is listed.
pub fn contains_id(ids: &Vec<u32>, id: u32) -> (r: bool)
    ensures
        r == ids@.contains(id),
{
    let mut i: usize = 0;
    while i < ids.len()
        invariant
            0 <= i <= ids@.len(),
            forall|j: int| 0 <= j < i ==> ids@[j] != id,
        decreases ids@.len() - i,
    {
        if ids[i] == id {
            return true;
        }
        i = i + 1;
    }
    false
}

/// What a sequence contains survives removing an occurrence of something
/// else.
proof fn lemma_remove_keeps_others(s: Seq<u32>, i: int, x: u32)
    requires
        0 <= i < s.len(),
        s.contains(x),
        s[i] != x,
    ensures
        s.remove(i).contains(x),
{
    let j = choose|j: int| 0 <= j < s.len() && s[j] == x;
    if j < i {
        assert(s.remove(i)[j] == x);
    } else {
        assert(s.remove(i)[j - 1] == x);
    }
}

/// If every id below `c` is listed, the list has at least `c` elements.
proof fn lemma_range_in_list(s: Seq<u32>, c: nat)
    requires
        c <= u32::MAX + 1,
        forall|x: u32| (x as nat) < c ==> s.contains(x),
    ensures
        c <= s.len(),
    decreases c,
{
    if c > 0 {
        let last = (c - 1) as u32;
        assert(s.contains(last));
        let i = choose|i: int| 0 <= i < s.len() && s[i] == last;
        let s2 = s.remove(i);
        assert forall|x: u32| (x as nat) < c - 1 implies s2.contains(x) by {
            assert(s.contains(x));
            lemma_remove_keeps_others(s, i, x);
        }
        lemma_range_in_list(s2, (c - 1) as nat);
    }
}

/// The smallest id that is not listed; exists because the list is shorter
/// than the id space.
fn first_free_id(ids: &Vec<u32>) -> (r: u32)
    requires
        ids@.len() < u32::MAX,
    ensures
        !ids@.contains(r),
{
    let mut c: u64 = 0;
    loop
        invariant_except_break
            c <= ids@.len(),
        invariant
            c <= u32::MAX,
            ids@.len() < u32::MAX,
            forall|x: u32| (x as nat) < c ==> ids@.contains(x),
        ensures
            c <= u32::MAX && !ids@.contains(c as u32),
        decreases ids@.len() + 1 - c,
    {
        if !contains_id(ids, c as u32) {
            break;
        }
        proof {
            lemma_range_in_list(ids@, (c + 1) as nat);
        }
        c = c + 1;
    }
    c as u32
}

/// A fresh opaque id: drawn at random until distinct from every listed id,
/// with a deterministic sweep as the last resort so that allocation always
/// ends.
fn fresh_id(ids: &Vec<u32>) -> (r: u32)
    requires
        ids@.len() < u32::MAX,
    ensures
        !ids@.contains(r),
{
    let mut id = crate::token::random_u32();
    let mut tries: u32 = 0;
    while contains_id(ids, id) && tries < 32
        invariant
            true,
        decreases 32 - tries,
    {
        id = crate::token::random_u32();
        tries = tries + 1;
    }
    if contains_id(ids, id) {
        first_free_id(ids)
    } else {
        id
    }
}

/// Reads the opaque id stored for a triple.
///
/// Returns `PsaErrorDoesNotExist` when the triple is absent and
/// `KeyInfoManagerError` when the stored id is not four bytes long.
pub fn get_key_id(key_triple: &KeyTriple, store: &KeyInfoStore) -> (r: Result<u32, ResponseStatus>)
    requires
        store.wf(),
    ensures
        match r {
            Result::Ok(id) => store@.contains_key(key_triple@) && store@[key_triple@].id
                == enc_u32(id),
            Result::Err(e) => {
                ||| (e == ResponseStatus::PsaErrorDoesNotExist && !store@.contains_key(
                    key_triple@,
                ))
                ||| (e == ResponseStatus::KeyInfoManagerError && store@.contains_key(key_triple@)
                    && store@[key_triple@].id.len() != 4)
            },
        },
{
    match store.get(key_triple) {
        Option::Some(info) => {
            if info.id.len() == 4 {
                let id = bytes_to_id(&info.id);
                proof {
                    lemma_bytes_id_inverse(info.id@);
                }
                Ok(id)
            } else {
                Err(ResponseStatus::KeyInfoManagerError)
            }
        },
        Option::None => Err(ResponseStatus::PsaErrorDoesNotExist),
    }
}

/// Whether a triple is present in the store.
pub fn key_id_exists(key_triple: &KeyTriple, store: &KeyInfoStore) -> (r: bool)
    requires
        store.wf(),
    ensures
        r == store@.contains_key(key_triple@),
{
    store.contains_triple(key_triple)
}

/// After an insert with a fresh id, every entry's id is listed.
#[verifier::spinoff_prover]
proof fn lemma_create_entries_listed(
    m0: Map<KeyTripleView, KeyInfoView>,
    ids0: Seq<u32>,
    t: KeyTripleView,
    attributes: KeyAttributes,
    id: u32,
)
    requires
        ids_match(m0, ids0),
        t.provider_id == ProviderId::Pkcs11,
        !m0.contains_key(t),
    ensures
        entries_listed(m0.insert(t, (KeyInfoView { id: enc_u32(id), attributes })), ids0.push(id)),
{
    let m1 = m0.insert(t, (KeyInfoView { id: enc_u32(id), attributes }));
    let ids1 = ids0.push(id);
    lemma_id_bytes_inverse(id);
    assert forall|k: KeyTripleView| #[trigger] is_p11_entry(m1, k) implies m1[k].id.len() == 4
        && ids1.contains(id_of_bytes(m1[k].id)) by {
        if k == t {
            assert(ids1[ids1.len() - 1] == id);
        } else {
            assert(is_p11_entry(m0, k));
            let listed = id_of_bytes(m0[k].id);
            let j = choose|j: int| 0 <= j < ids0.len() && ids0[j] == listed;
            assert(ids1[j] == listed);
        }
    }
    assert(entries_listed(m1, ids1));
}

/// After an insert with a fresh id, every listed id is some entry's.
#[verifier::spinoff_prover]
proof fn lemma_create_listed_entries(
    m0: Map<KeyTripleView, KeyInfoView>,
    ids0: Seq<u32>,
    t: KeyTripleView,
    attributes: KeyAttributes,
    id: u32,
)
    requires
        ids_match(m0, ids0),
        t.provider_id == ProviderId::Pkcs11,
        !m0.contains_key(t),
    ensures
        listed_have_entries(
            m0.insert(t, (KeyInfoView { id: enc_u32(id), attributes })),
            ids0.push(id),
        ),
{
    let m1 = m0.insert(t, (KeyInfoView { id: enc_u32(id), attributes }));
    let ids1 = ids0.push(id);
    assert forall|x: u32| #[trigger] ids1.contains(x) implies exists|k: KeyTripleView|
        is_p11_entry(m1, k) && m1[k].id == enc_u32(x) by {
        if x == id {
            assert(is_p11_entry(m1, t) && m1[t].id == enc_u32(x));
        } else {
            let j = choose|j: int| 0 <= j < ids1.len() && ids1[j] == x;
            assert(ids0[j] == x);
            assert(ids0.contains(x));
            let k = choose|k: KeyTripleView| is_p11_entry(m0, k) && m0[k].id == enc_u32(x);
            assert(k != t);
            assert(is_p11_entry(m1, k) && m1[k].id == enc_u32(x));
        }
    }
    assert(listed_have_entries(m1, ids1));
}

/// After an insert with a fresh id, no two entries share an id.
#[verifier::spinoff_prover]
proof fn lemma_create_unique(
    m0: Map<KeyTripleView, KeyInfoView>,
    ids0: Seq<u32>,
    t: KeyTripleView,
    attributes: KeyAttributes,
    id: u32,
)
    requires
        ids_match(m0, ids0),
        store_ids_unique(m0),
        t.provider_id == ProviderId::Pkcs11,
        !m0.contains_key(t),
        !ids0.contains(id),
    ensures
        store_ids_unique(m0.insert(t, (KeyInfoView { id: enc_u32(id), attributes }))),
{
    let m1 = m0.insert(t, (KeyInfoView { id: enc_u32(id), attributes }));
    lemma_id_bytes_inverse(id);
    assert forall|k1: KeyTripleView, k2: KeyTripleView|
        #[trigger] is_p11_entry(m1, k1) && #[trigger] is_p11_entry(m1, k2) && k1 != k2 implies m1[
        k1].id != m1[k2].id by {
        if k1 == t || k2 == t {
            let other = if k1 == t {
                k2
            } else {
                k1
            };
            assert(is_p11_entry(m0, other));
            let listed = id_of_bytes(m0[other].id);
            assert(ids0.contains(listed));
            lemma_bytes_id_inverse(m0[other].id);
            if m0[other].id == enc_u32(id) {
                assert(listed == id);
            }
        } else {
            assert(is_p11_entry(m0, k1) && is_p11_entry(m0, k2));
        }
    }
}

/// Inserting a new entry with a fresh id preserves the joint invariant.
#[verifier::spinoff_prover]
pub proof fn lemma_create_preserves(
    m0: Map<KeyTripleView, KeyInfoView>,
    ids0: Seq<u32>,
    t: KeyTripleView,
    attributes: KeyAttributes,
    id: u32,
)
    requires
        ids_match(m0, ids0),
        store_ids_unique(m0),
        t.provider_id == ProviderId::Pkcs11,
        !m0.contains_key(t),
        !ids0.contains(id),
    ensures
        ids_match(m0.insert(t, (KeyInfoView { id: enc_u32(id), attributes })), ids0.push(id)),
        store_ids_unique(m0.insert(t, (KeyInfoView { id: enc_u32(id), attributes }))),
{
    let ids1 = ids0.push(id);
    lemma_create_entries_listed(m0, ids0, t, attributes, id);
    lemma_create_listed_entries(m0, ids0, t, attributes, id);
    lemma_create_unique(m0, ids0, t, attributes, id);
    assert forall|i: int, j: int| 0 <= i < j < ids1.len() implies ids1[i] != ids1[j] by {
        if j == ids1.len() - 1 {
            assert(ids0.contains(ids0[i]));
        }
    }
    assert(ids_distinct(ids1));
}

/// After removing an entry and its id, every entry's id is still listed.
#[verifier::spinoff_prover]
proof fn lemma_remove_entries_listed(
    m0: Map<KeyTripleView, KeyInfoView>,
    ids0: Seq<u32>,
    ids1: Seq<u32>,
    t: KeyTripleView,
    id: u32,
)
    requires
        ids_match(m0, ids0),
        store_ids_unique(m0),
        t.provider_id == ProviderId::Pkcs11,
        m0.contains_key(t),
        m0[t].id == enc_u32(id),
        forall|x: u32| ids1.contains(x) <==> (ids0.contains(x) && x != id),
    ensures
        entries_listed(m0.remove(t), ids1),
{
    let m1 = m0.remove(t);
    lemma_id_bytes_inverse(id);
    assert(is_p11_entry(m0, t));
    assert forall|k: KeyTripleView| #[trigger] is_p11_entry(m1, k) implies m1[k].id.len() == 4
        && ids1.contains(id_of_bytes(m1[k].id)) by {
        assert(is_p11_entry(m0, k));
        assert(k != t);
        let listed = id_of_bytes(m0[k].id);
        assert(ids0.contains(listed));
        lemma_bytes_id_inverse(m0[k].id);
        if listed == id {
            assert(m0[k].id == enc_u32(id));
            assert(m0[k].id == m0[t].id);
        }
    }
    assert(entries_listed(m1, ids1));
}

/// After removing an entry and its id, every listed id is some entry's.
#[verifier::spinoff_prover]
proof fn lemma_remove_listed_entries(
    m0: Map<KeyTripleView, KeyInfoView>,
    ids0: Seq<u32>,
    ids1: Seq<u32>,
    t: KeyTripleView,
    id: u32,
)
    requires
        ids_match(m0, ids0),
        t.provider_id == ProviderId::Pkcs11,
        m0.contains_key(t),
        m0[t].id == enc_u32(id),
        forall|x: u32| ids1.contains(x) <==> (ids0.contains(x) && x != id),
    ensures
        listed_have_entries(m0.remove(t), ids1),
{
    let m1 = m0.remove(t);
    lemma_id_bytes_inverse(id);
    assert forall|x: u32| #[trigger] ids1.contains(x) implies exists|k: KeyTripleView|
        is_p11_entry(m1, k) && m1[k].id == enc_u32(x) by {
        assert(ids0.contains(x) && x != id);
        let k = choose|k: KeyTripleView| is_p11_entry(m0, k) && m0[k].id == enc_u32(x);
        if k == t {
            lemma_id_bytes_inverse(x);
            assert(id_of_bytes(m0[t].id) == x);
            assert(id_of_bytes(enc_u32(id)) == id);
        }
        assert(k != t);
        assert(is_p11_entry(m1, k) && m1[k].id == enc_u32(x));
    }
    assert(listed_have_entries(m1, ids1));
}

/// Removing an entry and its id preserves the joint invariant.
#[verifier::spinoff_prover]
pub proof fn lemma_remove_preserves(
    m0: Map<KeyTripleView, KeyInfoView>,
    ids0: Seq<u32>,
    ids1: Seq<u32>,
    t: KeyTripleView,
    id: u32,
)
    requires
        ids_match(m0, ids0),
        store_ids_unique(m0),
        t.provider_id == ProviderId::Pkcs11,
        m0.contains_key(t),
        m0[t].id == enc_u32(id),
        forall|x: u32| ids1.contains(x) <==> (ids0.contains(x) && x != id),
        forall|i: int, j: int| 0 <= i < j < ids1.len() ==> ids1[i] != ids1[j],
    ensures
        ids_match(m0.remove(t), ids1),
        store_ids_unique(m0.remove(t)),
{
    let m1 = m0.remove(t);
    lemma_remove_entries_listed(m0, ids0, ids1, t, id);
    lemma_remove_listed_entries(m0, ids0, ids1, t, id);
    assert forall|k1: KeyTripleView, k2: KeyTripleView|
        #[trigger] is_p11_entry(m1, k1) && #[trigger] is_p11_entry(m1, k2) && k1 != k2 implies m1[
        k1].id != m1[k2].id by {
        assert(is_p11_entry(m0, k1) && is_p11_entry(m0, k2));
    }
    assert(ids_distinct(ids1));
}

/// Allocates a fresh opaque id for a new PKCS#11 key and records the entry
/// in both structures, preserving their joint invariant; over whole
/// histories of such steps the invariant is [`lemma_ids_match_any_sequence`].
pub fn create_key_id(
    key_triple: KeyTriple,
    attributes: KeyAttributes,
    store: &mut KeyInfoStore,
    local_ids: &mut Vec<u32>,
) -> (id: u32)
    requires
        old(store).wf(),
        key_triple@.provider_id == ProviderId::Pkcs11,
        !old(store)@.contains_key(key_triple@),
        ids_match(old(store)@, old(local_ids)@),
        store_ids_unique(old(store)@),
        old(local_ids)@.len() < u32::MAX,
    ensures
        final(store).wf(),
        !old(local_ids)@.contains(id),
        final(store)@ == old(store)@.insert(
            key_triple@,
            (KeyInfoView { id: enc_u32(id), attributes }),
        ),
        final(local_ids)@ == old(local_ids)@.push(id),
        ids_match(final(store)@, final(local_ids)@),
        store_ids_unique(final(store)@),
{
    let ghost t = key_triple@;
    let ghost m0 = store@;
    let ghost ids0 = local_ids@;
    let id = fresh_id(local_ids);
    let info = KeyInfo { id: id_to_bytes(id), attributes };
    let _ = store.insert(key_triple, info);
    local_ids.push(id);
    proof {
        lemma_create_preserves(m0, ids0, t, attributes, id);
    }
    id
}

/// Removes one occurrence of a listed id.
fn remove_id_value(ids: &mut Vec<u32>, id: u32)
    requires
        forall|i: int, j: int| 0 <= i < j < old(ids)@.len() ==> old(ids)@[i] != old(ids)@[j],
    ensures
        forall|i: int, j: int| 0 <= i < j < final(ids)@.len() ==> final(ids)@[i] != final(ids)@[j],
        forall|x: u32| final(ids)@.contains(x) <==> (old(ids)@.contains(x) && x != id),
        old(ids)@.contains(id) ==> final(ids)@.len() == old(ids)@.len() - 1,
        !old(ids)@.contains(id) ==> final(ids)@ == old(ids)@,
{
    let ghost ids0 = ids@;
    let mut i: usize = 0;
    while i < ids.len()
        invariant
            ids0 == old(ids)@,
            ids@ == ids0,
            0 <= i <= ids0.len(),
            forall|j: int| 0 <= j < i ==> ids0[j] != id,
            forall|a: int, b: int| 0 <= a < b < ids0.len() ==> ids0[a] != ids0[b],
        decreases ids0.len() - i,
    {
        if ids[i] == id {
            let _ = ids.remove(i);
            proof {
                assert(ids0[i as int] == id);
                assert forall|x: u32| ids@.contains(x) implies (ids0.contains(x) && x != id) by {
                    let j = choose|j: int| 0 <= j < ids@.len() && ids@[j] == x;
                    if j < i {
                        assert(ids0[j] == x);
                    } else {
                        assert(ids0[j + 1] == x);
                    }
                }
                assert forall|x: u32| ids0.contains(x) && x != id implies ids@.contains(x) by {
                    lemma_remove_keeps_others(ids0, i as int, x);
                }
                assert forall|a: int, b: int|
                    0 <= a < b < ids@.len() implies ids@[a] != ids@[b] by {
                    let pa: int = if a < i {
                        a
                    } else {
                        a + 1
                    };
                    let pb: int = if b < i {
                        b
                    } else {
                        b + 1
                    };
                    assert(ids@[a] == ids0[pa] && ids@[b] == ids0[pb]);
                }
                assert(ids0.contains(id));
            }
            return;
        }
        i = i + 1;
    }
    proof {
        assert forall|x: u32| ids@.contains(x) implies x != id by {
            let j = choose|j: int| 0 <= j < ids@.len() && ids@[j] == x;
        }
        if ids0.contains(id) {
            let j = choose|j: int| 0 <= j < ids0.len() && ids0[j] == id;
        }
    }
}

/// Removes a PKCS#11 entry from the store and releases its opaque id,
/// preserving the joint invariant; over whole histories of such steps the
/// invariant is [`lemma_ids_match_any_sequence`].
pub fn remove_key_id(
    key_triple: &KeyTriple,
    id: u32,
    store: &mut KeyInfoStore,
    local_ids: &mut Vec<u32>,
)
    requires
        old(store).wf(),
        key_triple@.provider_id == ProviderId::Pkcs11,
        old(store)@.contains_key(key_triple@),
        old(store)@[key_triple@].id == enc_u32(id),
        ids_match(old(store)@, old(local_ids)@),
        store_ids_unique(old(store)@),
    ensures
        final(store).wf(),
        final(store)@ == old(store)@.remove(key_triple@),
        forall|x: u32|
            final(local_ids)@.contains(x) <==> (old(local_ids)@.contains(x) && x != id),
        final(local_ids)@.len() <= old(local_ids)@.len(),
        old(local_ids)@.contains(id) ==> final(local_ids)@.len() == old(local_ids)@.len() - 1,
        ids_match(final(store)@, final(local_ids)@),
        store_ids_unique(final(store)@),
{
    let ghost t = key_triple@;
    let ghost m0 = store@;
    let ghost ids0 = local_ids@;
    let _ = store.remove(key_triple);
    remove_id_value(local_ids, id);
    proof {
        lemma_remove_preserves(m0, ids0, local_ids@, t, id);
    }
}


/// Whether a triple list holds a given triple.
pub open spec fn triples_contain(ts: Seq<KeyTriple>, k: KeyTripleView) -> bool {
    exists|i: int| 0 <= i < ts.len() && (#[trigger] ts[i])@ == k
}

/// Executable twin of [`triples_contain`].
pub fn vec_contains_triple(ts: &Vec<KeyTriple>, t: &KeyTriple) -> (r: bool)
    ensures
        r == triples_contain(ts@, t@),
{
    let mut i: usize = 0;
    while i < ts.len()
        invariant
            0 <= i <= ts@.len(),
            forall|j: int| 0 <= j < i ==> (#[trigger] ts@[j])@ != t@,
        decreases ts@.len() - i,
    {
        if ts[i].eq_triple(t) {
            return true;
        }
        i = i + 1;
    }
    false
}

/// Inserting an entry of another provider touches none of the PKCS#11
/// bookkeeping.
#[verifier::spinoff_prover]
proof fn lemma_insert_other_provider(
    m0: Map<KeyTripleView, KeyInfoView>,
    ids: Seq<u32>,
    t: KeyTripleView,
    info: KeyInfoView,
)
    requires
        ids_match(m0, ids),
        store_ids_unique(m0),
        t.provider_id != ProviderId::Pkcs11,
    ensures
        ids_match(m0.insert(t, info), ids),
        store_ids_unique(m0.insert(t, info)),
{
    let m1 = m0.insert(t, info);
    assert forall|k: KeyTripleView| #[trigger] is_p11_entry(m1, k) implies m1[k].id.len() == 4
        && ids.contains(id_of_bytes(m1[k].id)) by {
        assert(k != t);
        assert(is_p11_entry(m0, k));
    }
    assert forall|x: u32| #[trigger] ids.contains(x) implies exists|k: KeyTripleView|
        is_p11_entry(m1, k) && m1[k].id == enc_u32(x) by {
        let k = choose|k: KeyTripleView| is_p11_entry(m0, k) && m0[k].id == enc_u32(x);
        assert(k != t);
        assert(is_p11_entry(m1, k) && m1[k].id == enc_u32(x));
    }
    assert forall|k1: KeyTripleView, k2: KeyTripleView|
        #[trigger] is_p11_entry(m1, k1) && #[trigger] is_p11_entry(m1, k2) && k1 != k2 implies m1[
        k1].id != m1[k2].id by {
        assert(is_p11_entry(m0, k1) && is_p11_entry(m0, k2));
    }
}

/// Startup reconciliation of the store against the token: rebuilds the
/// store without the triples marked for removal, dropping also any PKCS#11
/// entry whose stored id is malformed or collides with an earlier entry's,
/// and returns the local-id list, re-established to hold exactly the ids of
/// the remaining PKCS#11 entries.
#[verifier::spinoff_prover]
#[verifier::rlimit(100)]
pub fn reconcile_store(store: &KeyInfoStore, to_remove: &Vec<KeyTriple>) -> (r: (
    KeyInfoStore,
    Vec<u32>,
))
    requires
        store.wf(),
    ensures
        r.0.wf(),
        ids_match(r.0@, r.1@),
        store_ids_unique(r.0@),
        forall|k: KeyTripleView|
            #[trigger] r.0@.contains_key(k) ==> store@.contains_key(k) && r.0@[k] == store@[k],
        forall|k: KeyTripleView|
            store@.contains_key(k) && k.provider_id != ProviderId::Pkcs11
                ==> #[trigger] r.0@.contains_key(k),
        forall|k: KeyTripleView|
            k.provider_id == ProviderId::Pkcs11 && triples_contain(to_remove@, k)
                ==> !(#[trigger] r.0@.contains_key(k)),
        store_ids_unique(store@) ==> (forall|k: KeyTripleView|
            #[trigger] store@.contains_key(k) && k.provider_id == ProviderId::Pkcs11
                && !triples_contain(to_remove@, k) && store@[k].id.len() == 4
                ==> r.0@.contains_key(k)),
{
    let mut out = KeyInfoStore::new();
    let mut ids: Vec<u32> = Vec::new();
    let core_triples = store.get_all(ProviderId::Core);
    let mut i: usize = 0;
    while i < core_triples.len()
        invariant
            store.wf(),
            out.wf(),
            ids@ == Seq::<u32>::empty(),
            0 <= i <= core_triples@.len(),
            forall|j: int|
                0 <= j < core_triples@.len() ==> store@.contains_key((#[trigger] core_triples@[j])@)
                    && core_triples@[j]@.provider_id == ProviderId::Core,
            forall|k: KeyTripleView|
                #[trigger] out@.contains_key(k) ==> store@.contains_key(k) && out@[k] == store@[k]
                    && k.provider_id == ProviderId::Core,
            forall|j: int| 0 <= j < i ==> out@.contains_key((#[trigger] core_triples@[j])@),
            ids_match(out@, ids@),
            store_ids_unique(out@),
        decreases core_triples@.len() - i,
    {
        let t = core_triples[i].duplicate();
        let info = match store.get(&t) {
            Option::Some(x) => x.duplicate(),
            Option::None => vstd::pervasive::unreached(),
        };
        proof {
            lemma_insert_other_provider(out@, ids@, t@, info@);
        }
        let _ = out.insert(t, info);
        i = i + 1;
    }
    let p11_triples = store.get_all(ProviderId::Pkcs11);
    let mut e: usize = 0;
    while e < p11_triples.len()
        invariant
            store.wf(),
            out.wf(),
            0 <= e <= p11_triples@.len(),
            forall|j: int|
                0 <= j < p11_triples@.len() ==> store@.contains_key((#[trigger] p11_triples@[j])@)
                    && p11_triples@[j]@.provider_id == ProviderId::Pkcs11,
            forall|a: int, b: int|
                0 <= a < b < p11_triples@.len() ==> (#[trigger] p11_triples@[a])@
                    != (#[trigger] p11_triples@[b])@,
            forall|k: KeyTripleView|
                #[trigger] out@.contains_key(k) ==> store@.contains_key(k) && out@[k] == store@[k],
            forall|k: KeyTripleView|
                store@.contains_key(k) && k.provider_id == ProviderId::Core ==> #[trigger] out@.contains_key(
                    k,
                ),
            forall|k: KeyTripleView|
                #[trigger] out@.contains_key(k) && k.provider_id == ProviderId::Pkcs11 ==> exists|
                    j: int,
                |
                    0 <= j < e && (#[trigger] p11_triples@[j])@ == k,
            forall|k: KeyTripleView|
                #[trigger] out@.contains_key(k) && k.provider_id == ProviderId::Pkcs11
                    ==> !triples_contain(to_remove@, k),
            store_ids_unique(store@) ==> (forall|j: int|
                0 <= j < e && !triples_contain(to_remove@, (#[trigger] p11_triples@[j])@)
                    && store@[p11_triples@[j]@].id.len() == 4 ==> out@.contains_key(
                    p11_triples@[j]@,
                )),
            ids_match(out@, ids@),
            store_ids_unique(out@),
        decreases p11_triples@.len() - e,
    {
        let t = p11_triples[e].duplicate();
        let keep = !vec_contains_triple(to_remove, &t);
        if keep {
            match store.get(&t) {
                Option::None => {
                    proof {
                        assert(false);
                    }
                },
                Option::Some(found) => {
                    if found.id.len() == 4 {
                        let id = bytes_to_id(&found.id);
                        if !contains_id(&ids, id) {
                            let info = found.duplicate();
                            proof {
                                lemma_bytes_id_inverse(info@.id);
                                assert(!out@.contains_key(t@)) by {
                                    if out@.contains_key(t@) {
                                        let j = choose|j: int|
                                            0 <= j < e && (#[trigger] p11_triples@[j])@ == t@;
                                        assert(p11_triples@[j]@ == p11_triples@[e as int]@);
                                    }
                                }
                                assert(info@ == (KeyInfoView {
                                    id: enc_u32(id),
                                    attributes: info@.attributes,
                                }));
                                lemma_create_preserves(out@, ids@, t@, info@.attributes, id);
                            }
                            let _ = out.insert(t, info);
                            ids.push(id);
                        } else {
                            proof {
                                if store_ids_unique(store@) {
                                    assert(ids@.contains(id));
                                    let k2 = choose|k2: KeyTripleView|
                                        is_p11_entry(out@, k2) && out@[k2].id == enc_u32(id);
                                    assert(store@.contains_key(k2) && store@[k2] == out@[k2]);
                                    assert(k2 != t@) by {
                                        if k2 == t@ {
                                            let j = choose|j: int|
                                                0 <= j < e && (#[trigger] p11_triples@[j])@ == t@;
                                            assert(p11_triples@[j]@ == p11_triples@[e as int]@);
                                        }
                                    }
                                    lemma_bytes_id_inverse(found@.id);
                                    assert(store@[t@].id == enc_u32(id));
                                    assert(is_p11_entry(store@, t@) && is_p11_entry(store@, k2));
                                    assert(false);
                                }
                            }
                        }
                    }
                },
            }
        }
        e = e + 1;
    }
    proof {
        assert forall|k: KeyTripleView|
            store@.contains_key(k) && k.provider_id != ProviderId::Pkcs11 implies
            #[trigger] out@.contains_key(k) by {
            assert(k.provider_id == ProviderId::Core);
        }
        if store_ids_unique(store@) {
            assert forall|k: KeyTripleView|
                #[trigger] store@.contains_key(k) && k.provider_id == ProviderId::Pkcs11
                    && !triples_contain(to_remove@, k) && store@[k].id.len() == 4 implies
                out@.contains_key(k) by {
                let j = choose|j: int|
                    0 <= j < p11_triples@.len() && (#[trigger] p11_triples@[j])@ == k;
                assert(out@.contains_key(p11_triples@[j]@));
            }
        }
    }
    (out, ids)
}


/// The id list with every occurrence of one id removed.
pub open spec fn seq_without(ids: Seq<u32>, id: u32) -> Seq<u32>
    decreases ids.len(),
{
    if ids.len() == 0 {
        ids
    } else if ids.last() == id {
        seq_without(ids.drop_last(), id)
    } else {
        seq_without(ids.drop_last(), id).push(ids.last())
    }
}

/// Removal keeps exactly the other ids, and keeps them distinct.
pub proof fn lemma_seq_without(ids: Seq<u32>, id: u32)
    requires
        forall|i: int, j: int| 0 <= i < j < ids.len() ==> ids[i] != ids[j],
    ensures
        forall|x: u32|
            #![trigger seq_without(ids, id).contains(x)]
            #![trigger ids.contains(x)]
            seq_without(ids, id).contains(x) <==> (ids.contains(x) && x != id),
        forall|i: int, j: int|
            0 <= i < j < seq_without(ids, id).len() ==> seq_without(ids, id)[i] != seq_without(
                ids,
                id,
            )[j],
    decreases ids.len(),
{
    if ids.len() > 0 {
        let head = ids.drop_last();
        assert(forall|i: int, j: int| 0 <= i < j < head.len() ==> head[i] != head[j]);
        lemma_seq_without(head, id);
        let out = seq_without(ids, id);
        assert forall|x: u32| out.contains(x) implies (ids.contains(x) && x != id) by {
            let k = choose|k: int| 0 <= k < out.len() && out[k] == x;
            if ids.last() != id && k == out.len() - 1 {
                assert(ids[ids.len() - 1] == x);
            } else {
                assert(seq_without(head, id)[k] == x);
                assert(seq_without(head, id).contains(x));
                assert(head.contains(x) && x != id);
                let h = choose|h: int| 0 <= h < head.len() && head[h] == x;
                assert(ids[h] == x);
            }
        }
        assert forall|x: u32| ids.contains(x) && x != id implies out.contains(x) by {
            let k = choose|k: int| 0 <= k < ids.len() && ids[k] == x;
            if k == ids.len() - 1 {
                assert(out.last() == x);
            } else {
                assert(head[k] == x);
                assert(seq_without(head, id).contains(x));
                let h = choose|h: int|
                    0 <= h < seq_without(head, id).len() && seq_without(head, id)[h] == x;
                assert(out[h] == x);
            }
        }
        if ids.last() != id {
            assert forall|i: int, j: int|
                0 <= i < j < out.len() implies out[i] != out[j] by {
                if j == out.len() - 1 {
                    assert(seq_without(head, id).contains(out[i]));
                    assert(head.contains(out[i]));
                    let h = choose|h: int| 0 <= h < head.len() && head[h] == out[i];
                    assert(ids[h] == out[i] && ids[ids.len() - 1] == out[j]);
                }
            }
        }
    }
}

/// One create or destroy of a PKCS#11 key, as it acts on the store and the
/// local-id list.
pub enum StoreEvent {
    Create { key_triple: KeyTripleView, attributes: KeyAttributes, id: u32 },
    Remove { key_triple: KeyTripleView, id: u32 },
}

/// When an event can happen: creation needs a new triple and a fresh id,
/// destruction an entry that carries exactly the removed id.
pub open spec fn event_enabled(
    m: Map<KeyTripleView, KeyInfoView>,
    ids: Seq<u32>,
    e: StoreEvent,
) -> bool {
    match e {
        StoreEvent::Create { key_triple, attributes, id } => key_triple.provider_id
            == ProviderId::Pkcs11 && !m.contains_key(key_triple) && !ids.contains(id),
        StoreEvent::Remove { key_triple, id } => key_triple.provider_id == ProviderId::Pkcs11
            && m.contains_key(key_triple) && m[key_triple].id == enc_u32(id),
    }
}

/// The store and the id list after one event.
pub open spec fn apply_event(
    m: Map<KeyTripleView, KeyInfoView>,
    ids: Seq<u32>,
    e: StoreEvent,
) -> (Map<KeyTripleView, KeyInfoView>, Seq<u32>) {
    match e {
        StoreEvent::Create { key_triple, attributes, id } => (
            m.insert(key_triple, (KeyInfoView { id: enc_u32(id), attributes })),
            ids.push(id),
        ),
        StoreEvent::Remove { key_triple, id } => (m.remove(key_triple), seq_without(ids, id)),
    }
}

/// The store and the id list after a whole history; an event that is not
/// enabled changes nothing, as the checked operations refuse it.
pub open spec fn run_events(
    m: Map<KeyTripleView, KeyInfoView>,
    ids: Seq<u32>,
    events: Seq<StoreEvent>,
) -> (Map<KeyTripleView, KeyInfoView>, Seq<u32>)
    decreases events.len(),
{
    if events.len() == 0 {
        (m, ids)
    } else if event_enabled(m, ids, events[0]) {
        let stepped = apply_event(m, ids, events[0]);
        run_events(stepped.0, stepped.1, events.drop_first())
    } else {
        run_events(m, ids, events.drop_first())
    }
}

/// Law of opaque-id freshness over whole histories: after any sequence of
/// creations and destructions, the local-id list still holds exactly the
/// ids of the stored PKCS#11 entries, each exactly once.
pub proof fn lemma_ids_match_any_sequence(
    m: Map<KeyTripleView, KeyInfoView>,
    ids: Seq<u32>,
    events: Seq<StoreEvent>,
)
    requires
        ids_match(m, ids),
        store_ids_unique(m),
    ensures
        ids_match(run_events(m, ids, events).0, run_events(m, ids, events).1),
        store_ids_unique(run_events(m, ids, events).0),
    decreases events.len(),
{
    if events.len() > 0 {
        if event_enabled(m, ids, events[0]) {
            let stepped = apply_event(m, ids, events[0]);
            match events[0] {
                StoreEvent::Create { key_triple, attributes, id } => {
                    lemma_create_preserves(m, ids, key_triple, attributes, id);
                },
                StoreEvent::Remove { key_triple, id } => {
                    lemma_seq_without(ids, id);
                    lemma_remove_preserves(m, ids, seq_without(ids, id), key_triple, id);
                },
            }
            lemma_ids_match_any_sequence(stepped.0, stepped.1, events.drop_first());
        } else {
            lemma_ids_match_any_sequence(m, ids, events.drop_first());
        }
    }
}

} // verus!
