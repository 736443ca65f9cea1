//! The key-info store: a durable mapping from key triples to key info.
//!
//! A key triple `(application, provider, key name)` uniquely identifies a
//! logical key; the info stored under it is the provider-local opaque id and
//! the key's attributes. This module holds an in-memory store whose
//! behaviour is specified as a finite map from triple views to info views;
//! durable backends are external collaborators with the same interface.

use vstd::prelude::*;
use crate::requests::ProviderId;
use crate::operations::KeyAttributes;

verus! {

/// The primary key of the store. Two triples are equal iff all three
/// components are equal; key names are arbitrary strings, unique only
/// within an `(application, provider)` pair.
#[derive(Debug)]
pub struct KeyTriple {
    pub app_name: String,
    pub provider_id: ProviderId,
    pub key_name: String,
}

/// Mathematical view of a [`KeyTriple`].
pub struct KeyTripleView {
    pub app_name: Seq<char>,
    pub provider_id: ProviderId,
    pub key_name: Seq<char>,
}

impl View for KeyTriple {
    type V = KeyTripleView;

    open spec fn view(&self) -> KeyTripleView {
        KeyTripleView {
            app_name: self.app_name@,
            provider_id: self.provider_id,
            key_name: self.key_name@,
        }
    }
}

impl KeyTriple {
    pub fn new(app_name: String, provider_id: ProviderId, key_name: String) -> (r: KeyTriple)
        ensures
            r@ == (KeyTripleView { app_name: app_name@, provider_id, key_name: key_name@ }),
    {
        KeyTriple { app_name, provider_id, key_name }
    }

    /// Component-wise equality, which is exactly equality of the views.
    pub fn eq_triple(&self, other: &KeyTriple) -> (r: bool)
        ensures
            r == (self@ == other@),
    {
        let r = self.app_name == other.app_name && self.provider_id == other.provider_id
            && self.key_name == other.key_name;
        if r {
            assert(self@ == other@);
        }
        r
    }

    /// A copy with the same view.
    pub fn duplicate(&self) -> (r: KeyTriple)
        ensures
            r@ == self@,
    {
        KeyTriple {
            app_name: self.app_name.clone(),
            provider_id: self.provider_id,
            key_name: self.key_name.clone(),
        }
    }
}

/// What the store holds under a triple: the provider-local opaque id (a byte
/// string whose length the provider checks) and the key's attributes.
#[derive(Debug)]
pub struct KeyInfo {
    pub id: Vec<u8>,
    pub attributes: KeyAttributes,
}

/// Mathematical view of a [`KeyInfo`].
pub struct KeyInfoView {
    pub id: Seq<u8>,
    pub attributes: KeyAttributes,
}

impl View for KeyInfo {
    type V = KeyInfoView;

    open spec fn view(&self) -> KeyInfoView {
        KeyInfoView { id: self.id@, attributes: self.attributes }
    }
}

impl KeyInfo {
    /// A copy with the same view.
    pub fn duplicate(&self) -> (r: KeyInfo)
        ensures
            r@ == self@,
    {
        KeyInfo { id: self.id.clone(), attributes: self.attributes }
    }
}

/// The finite map spelled by an entry sequence: later entries win, though
/// a well-formed store never holds two entries for one triple.
pub open spec fn entries_map(s: Seq<(KeyTriple, KeyInfo)>) -> Map<KeyTripleView, KeyInfoView>
    decreases s.len(),
{
    if s.len() == 0 {
        Map::<KeyTripleView, KeyInfoView>::empty()
    } else {
        entries_map(s.drop_last()).insert(s.last().0@, s.last().1@)
    }
}

/// Pairwise-distinct triples in an entry sequence.
pub open spec fn entries_distinct(s: Seq<(KeyTriple, KeyInfo)>) -> bool {
    forall|i: int, j: int| 0 <= i < j < s.len() ==> (#[trigger] s[i]).0@ != (#[trigger] s[j]).0@
}

/// A key is in the map iff some entry holds it.
pub proof fn lemma_entries_map_contains(s: Seq<(KeyTriple, KeyInfo)>, k: KeyTripleView)
    ensures
        entries_map(s).contains_key(k) <==> exists|i: int|
            0 <= i < s.len() && (#[trigger] s[i]).0@ == k,
    decreases s.len(),
{
    if s.len() == 0 {
    } else {
        lemma_entries_map_contains(s.drop_last(), k);
        if entries_map(s).contains_key(k) {
            if s.last().0@ == k {
                assert(s[s.len() - 1].0@ == k);
            } else {
                let i = choose|i: int| 0 <= i < s.drop_last().len() && (#[trigger] s.drop_last()[i]).0@ == k;
                assert(s[i].0@ == k);
            }
        }
        if exists|i: int| 0 <= i < s.len() && (#[trigger] s[i]).0@ == k {
            let i = choose|i: int| 0 <= i < s.len() && (#[trigger] s[i]).0@ == k;
            if i == s.len() - 1 {
            } else {
                assert(s.drop_last()[i].0@ == k);
            }
        }
    }
}

/// In a distinct store, the entry holding a key gives the mapped value.
pub proof fn lemma_entries_map_index(s: Seq<(KeyTriple, KeyInfo)>, i: int)
    requires
        entries_distinct(s),
        0 <= i < s.len(),
    ensures
        entries_map(s).contains_key(s[i].0@),
        entries_map(s)[s[i].0@] == s[i].1@,
    decreases s.len(),
{
    lemma_entries_map_contains(s, s[i].0@);
    if i == s.len() - 1 {
    } else {
        assert(s.last() == s[s.len() - 1]);
        assert(s[i].0@ != s[s.len() - 1].0@);
        assert(s.drop_last()[i] == s[i]);
        assert(entries_distinct(s.drop_last())) by {
            assert(forall|a: int, b: int|
                0 <= a < b < s.drop_last().len() ==> (#[trigger] s.drop_last()[a]) == s[a]
                    && (#[trigger] s.drop_last()[b]) == s[b]);
        }
        lemma_entries_map_index(s.drop_last(), i);
    }
}

/// Removing the entry at `i` removes exactly its key from the map.
pub proof fn lemma_entries_map_remove(s: Seq<(KeyTriple, KeyInfo)>, i: int)
    requires
        entries_distinct(s),
        0 <= i < s.len(),
    ensures
        entries_map(s.remove(i)) == entries_map(s).remove(s[i].0@),
    decreases s.len(),
{
    let k = s[i].0@;
    if i == s.len() - 1 {
        assert(s.remove(i) =~= s.drop_last());
        lemma_entries_map_contains(s.drop_last(), k);
        assert(!entries_map(s.drop_last()).contains_key(k)) by {
            if entries_map(s.drop_last()).contains_key(k) {
                let j = choose|j: int|
                    0 <= j < s.drop_last().len() && (#[trigger] s.drop_last()[j]).0@ == k;
                assert(s[j].0@ == k);
            }
        }
        assert(entries_map(s).remove(k) =~= entries_map(s.drop_last()));
    } else {
        assert(entries_distinct(s.drop_last())) by {
            assert(forall|a: int, b: int|
                0 <= a < b < s.drop_last().len() ==> (#[trigger] s.drop_last()[a]) == s[a]
                    && (#[trigger] s.drop_last()[b]) == s[b]);
        }
        lemma_entries_map_remove(s.drop_last(), i);
        assert(s.remove(i).drop_last() =~= s.drop_last().remove(i));
        assert(s.remove(i).last() == s.last());
        assert(entries_map(s.remove(i)) == entries_map(s.drop_last().remove(i)).insert(
            s.last().0@,
            s.last().1@,
        ));
        assert(s[i].0@ != s.last().0@);
        assert(entries_map(s).remove(k) =~= entries_map(s.drop_last()).remove(k).insert(
            s.last().0@,
            s.last().1@,
        ));
    }
}

/// In a distinct store, the map has exactly one element per entry.
pub proof fn lemma_entries_map_len(s: Seq<(KeyTriple, KeyInfo)>)
    requires
        entries_distinct(s),
    ensures
        entries_map(s).dom().finite(),
        entries_map(s).dom().len() == s.len(),
    decreases s.len(),
{
    if s.len() == 0 {
        assert(entries_map(s).dom() =~= Set::<KeyTripleView>::empty());
    } else {
        assert(entries_distinct(s.drop_last())) by {
            assert(forall|a: int, b: int|
                0 <= a < b < s.drop_last().len() ==> (#[trigger] s.drop_last()[a]) == s[a]
                    && (#[trigger] s.drop_last()[b]) == s[b]);
        }
        lemma_entries_map_len(s.drop_last());
        lemma_entries_map_contains(s.drop_last(), s.last().0@);
        assert(!entries_map(s.drop_last()).contains_key(s.last().0@)) by {
            if entries_map(s.drop_last()).contains_key(s.last().0@) {
                let j = choose|j: int|
                    0 <= j < s.drop_last().len() && (#[trigger] s.drop_last()[j]).0@ == s.last().0@;
                assert(s[j].0@ == s[s.len() - 1].0@);
            }
        }
        assert(entries_map(s).dom() =~= entries_map(s.drop_last()).dom().insert(s.last().0@));
    }
}

/// In-memory key-info store. Its behaviour is its map view; the entry
/// sequence with distinct triples is the representation.
#[derive(Debug)]
pub struct KeyInfoStore {
    entries: Vec<(KeyTriple, KeyInfo)>,
}

impl View for KeyInfoStore {
    type V = Map<KeyTripleView, KeyInfoView>;

    closed spec fn view(&self) -> Map<KeyTripleView, KeyInfoView> {
        entries_map(self.entries@)
    }
}

impl KeyInfoStore {
    /// Representation invariant: no two entries share a triple.
    pub closed spec fn wf(&self) -> bool {
        entries_distinct(self.entries@)
    }

    /// An empty store.
    pub fn new() -> (r: KeyInfoStore)
        ensures
            r.wf(),
            r@ == Map::<KeyTripleView, KeyInfoView>::empty(),
    {
        KeyInfoStore { entries: Vec::new() }
    }

    /// Index of the entry holding a triple, if any.
    fn find(&self, key_triple: &KeyTriple) -> (r: Option<usize>)
        ensures
            match r {
                Option::Some(i) => i < self.entries@.len() && self.entries@[i as int].0@
                    == key_triple@,
                Option::None => forall|i: int|
                    0 <= i < self.entries@.len() ==> (#[trigger] self.entries@[i]).0@
                        != key_triple@,
            },
    {
        let mut i: usize = 0;
        while i < self.entries.len()
            invariant
                0 <= i <= self.entries@.len(),
                forall|j: int|
                    0 <= j < i ==> (#[trigger] self.entries@[j]).0@ != key_triple@,
            decreases self.entries@.len() - i,
        {
            if self.entries[i].0.eq_triple(key_triple) {
                return Some(i);
            }
            i = i + 1;
        }
        None
    }

    /// Looks a triple up.
    pub fn get(&self, key_triple: &KeyTriple) -> (r: Option<&KeyInfo>)
        requires
            self.wf(),
        ensures
            match r {
                Option::Some(info) => self@.contains_key(key_triple@) && info@
                    == self@.index(key_triple@),
                Option::None => !self@.contains_key(key_triple@),
            },
    {
        proof {
            lemma_entries_map_contains(self.entries@, key_triple@);
        }
        match self.find(key_triple) {
            Option::Some(i) => {
                proof {
                    lemma_entries_map_index(self.entries@, i as int);
                }
                Some(&self.entries[i].1)
            },
            Option::None => None,
        }
    }

    /// Whether a triple is present.
    pub fn contains_triple(&self, key_triple: &KeyTriple) -> (r: bool)
        requires
            self.wf(),
        ensures
            r == self@.contains_key(key_triple@),
    {
        proof {
            lemma_entries_map_contains(self.entries@, key_triple@);
        }
        match self.find(key_triple) {
            Option::Some(_) => true,
            Option::None => false,
        }
    }

    /// Stores info under a triple, returning what was stored there before.
    pub fn insert(&mut self, key_triple: KeyTriple, info: KeyInfo) -> (prev: Option<KeyInfo>)
        requires
            old(self).wf(),
        ensures
            final(self).wf(),
            final(self)@ == old(self)@.insert(key_triple@, info@),
            match prev {
                Option::Some(p) => old(self)@.contains_key(key_triple@) && p@
                    == old(self)@.index(key_triple@),
                Option::None => !old(self)@.contains_key(key_triple@),
            },
    {
        proof {
            lemma_entries_map_contains(self.entries@, key_triple@);
        }
        let prev = match self.find(&key_triple) {
            Option::Some(i) => {
                proof {
                    lemma_entries_map_index(self.entries@, i as int);
                    lemma_entries_map_remove(self.entries@, i as int);
                }
                let (_, old_info) = self.entries.remove(i);
                assert(entries_distinct(self.entries@)) by {
                    assert(forall|a: int, b: int|
                        0 <= a < b < self.entries@.len() ==> exists|x: int, y: int|
                            0 <= x < y < old(self).entries@.len()
                                && (#[trigger] self.entries@[a]) == old(self).entries@[x]
                                && (#[trigger] self.entries@[b]) == old(self).entries@[y]);
                }
                Some(old_info)
            },
            Option::None => None,
        };
        let ghost mid = self.entries@;
        assert(forall|i: int| 0 <= i < mid.len() ==> (#[trigger] mid[i]).0@ != key_triple@);
        self.entries.push((key_triple, info));
        assert(self.entries@.drop_last() =~= mid);
        assert(final(self)@ == entries_map(mid).insert(key_triple@, info@));
        proof {
            if prev is Some {
                assert(entries_map(mid) == old(self)@.remove(key_triple@));
                assert(entries_map(mid).insert(key_triple@, info@) =~= old(self)@.insert(
                    key_triple@,
                    info@,
                ));
            }
        }
        prev
    }

    /// Removes a triple, returning what was stored under it.
    pub fn remove(&mut self, key_triple: &KeyTriple) -> (prev: Option<KeyInfo>)
        requires
            old(self).wf(),
        ensures
            final(self).wf(),
            final(self)@ == old(self)@.remove(key_triple@),
            match prev {
                Option::Some(p) => old(self)@.contains_key(key_triple@) && p@
                    == old(self)@.index(key_triple@),
                Option::None => !old(self)@.contains_key(key_triple@),
            },
    {
        proof {
            lemma_entries_map_contains(self.entries@, key_triple@);
        }
        match self.find(key_triple) {
            Option::Some(i) => {
                proof {
                    lemma_entries_map_index(self.entries@, i as int);
                    lemma_entries_map_remove(self.entries@, i as int);
                }
                let (_, old_info) = self.entries.remove(i);
                assert(entries_distinct(self.entries@)) by {
                    assert(forall|a: int, b: int|
                        0 <= a < b < self.entries@.len() ==> exists|x: int, y: int|
                            0 <= x < y < old(self).entries@.len()
                                && (#[trigger] self.entries@[a]) == old(self).entries@[x]
                                && (#[trigger] self.entries@[b]) == old(self).entries@[y]);
                }
                Some(old_info)
            },
            Option::None => {
                assert(final(self)@ =~= old(self)@.remove(key_triple@));
                None
            },
        }
    }

    /// The number of stored triples.
    pub fn len(&self) -> (r: usize)
        requires
            self.wf(),
        ensures
            r == self@.dom().len(),
    {
        proof {
            lemma_entries_map_len(self.entries@);
        }
        self.entries.len()
    }

    /// All triples stored for one provider, each exactly once.
    pub fn get_all(&self, provider_id: ProviderId) -> (r: Vec<KeyTriple>)
        requires
            self.wf(),
        ensures
            forall|i: int, j: int| 0 <= i < j < r@.len() ==> (#[trigger] r@[i])@ != (#[trigger] r@[j])@,
            forall|i: int|
                0 <= i < r@.len() ==> self@.contains_key((#[trigger] r@[i])@) && r@[i]@.provider_id
                    == provider_id,
            forall|k: KeyTripleView|
                self@.contains_key(k) && k.provider_id == provider_id ==> exists|i: int|
                    0 <= i < r@.len() && (#[trigger] r@[i])@ == k,
    {
        let mut r: Vec<KeyTriple> = Vec::new();
        let mut i: usize = 0;
        while i < self.entries.len()
            invariant
                self.wf(),
                0 <= i <= self.entries@.len(),
                forall|a: int, b: int|
                    0 <= a < b < r@.len() ==> (#[trigger] r@[a])@ != (#[trigger] r@[b])@,
                forall|a: int|
                    0 <= a < r@.len() ==> exists|e: int|
                        0 <= e < i && (#[trigger] r@[a])@ == self.entries@[e].0@ && r@[a]@.provider_id
                            == provider_id,
                forall|e: int|
                    0 <= e < i && (#[trigger] self.entries@[e]).0@.provider_id == provider_id
                        ==> exists|a: int| 0 <= a < r@.len() && (#[trigger] r@[a])@
                        == self.entries@[e].0@,
            decreases self.entries@.len() - i,
        {
            if self.entries[i].0.provider_id == provider_id {
                let t = self.entries[i].0.duplicate();
                proof {
                    assert forall|a: int| 0 <= a < r@.len() implies (#[trigger] r@[a])@ != t@ by {
                        let e = choose|e: int|
                            0 <= e < i && (#[trigger] r@[a])@ == self.entries@[e].0@
                                && r@[a]@.provider_id == provider_id;
                        assert(self.entries@[e].0@ != self.entries@[i as int].0@);
                    }
                }
                let ghost r_old = r@;
                r.push(t);
                proof {
                    assert(r@[r@.len() - 1]@ == self.entries@[i as int].0@);
                    assert forall|e: int|
                        0 <= e < i + 1 && (#[trigger] self.entries@[e]).0@.provider_id
                            == provider_id implies exists|a: int|
                        0 <= a < r@.len() && (#[trigger] r@[a])@ == self.entries@[e].0@ by {
                        if e == i {
                            assert(r@[r@.len() - 1]@ == self.entries@[e].0@);
                        } else {
                            let a = choose|a: int|
                                0 <= a < r_old.len() && (#[trigger] r_old[a])@
                                    == self.entries@[e].0@;
                            assert(r@[a]@ == self.entries@[e].0@);
                        }
                    }
                }
            }
            i = i + 1;
        }
        proof {
            assert forall|a: int| 0 <= a < r@.len() implies self@.contains_key((#[trigger] r@[a])@)
                && r@[a]@.provider_id == provider_id by {
                let e = choose|e: int|
                    0 <= e < self.entries@.len() && (#[trigger] r@[a])@ == self.entries@[e].0@
                        && r@[a]@.provider_id == provider_id;
                lemma_entries_map_index(self.entries@, e);
            }
            assert forall|k: KeyTripleView|
                self@.contains_key(k) && k.provider_id == provider_id implies exists|a: int|
                0 <= a < r@.len() && (#[trigger] r@[a])@ == k by {
                lemma_entries_map_contains(self.entries@, k);
                let e = choose|e: int|
                    0 <= e < self.entries@.len() && (#[trigger] self.entries@[e]).0@ == k;
                assert(self.entries@[e].0@.provider_id == provider_id);
            }
        }
        r
    }
}

} // verus!
