//! A map from strings to values that keeps its entries in the order of their keys.

use crate::text::{lemma_lex_irreflexive, lemma_lex_total, lemma_lex_transitive, lex_lt, str_eq, str_lt};
use vstd::prelude::*;

verus! {

/// Every key comes before each key behind it: the keys ascend, and none is there twice.
pub open spec fn keys_ascending<T>(e: Seq<(Seq<char>, T)>) -> bool {
    forall|i: int, j: int|
        #![trigger e[i], e[j]]
        0 <= i < j < e.len() ==> lex_lt(e[i].0, e[j].0)
}

/// The first place at or behind `i` whose key does not come before `k`.
pub open spec fn slot_from<T>(e: Seq<(Seq<char>, T)>, k: Seq<char>, i: int) -> int
    decreases e.len() - i,
{
    if 0 <= i < e.len() && lex_lt(e[i].0, k) {
        slot_from(e, k, i + 1)
    } else {
        i
    }
}

/// The place where the key `k` stands, or would stand.
pub open spec fn slot<T>(e: Seq<(Seq<char>, T)>, k: Seq<char>) -> int {
    slot_from(e, k, 0)
}

/// Whether `k` is a key of `e`.
pub open spec fn has_key<T>(e: Seq<(Seq<char>, T)>, k: Seq<char>) -> bool {
    0 <= slot(e, k) < e.len() && e[slot(e, k)].0 == k
}

/// The value that stands under `k`, if any.
pub open spec fn lookup<T>(e: Seq<(Seq<char>, T)>, k: Seq<char>) -> Option<T> {
    if has_key(e, k) {
        Some(e[slot(e, k)].1)
    } else {
        None
    }
}

/// `e` with `v` under `k`: in place of the old value where `k` is a key already, else at
/// the place that keeps the keys ascending.
pub open spec fn put<T>(e: Seq<(Seq<char>, T)>, k: Seq<char>, v: T) -> Seq<(Seq<char>, T)> {
    if has_key(e, k) {
        e.update(slot(e, k), (k, v))
    } else {
        e.insert(slot(e, k), (k, v))
    }
}

pub proof fn lemma_slot_from<T>(e: Seq<(Seq<char>, T)>, k: Seq<char>, i: int)
    requires
        0 <= i <= e.len(),
    ensures
        i <= slot_from(e, k, i) <= e.len(),
        forall|j: int| i <= j < slot_from(e, k, i) ==> lex_lt(#[trigger] e[j].0, k),
        slot_from(e, k, i) < e.len() ==> !lex_lt(e[slot_from(e, k, i)].0, k),
    decreases e.len() - i,
{
    if i < e.len() && lex_lt(e[i].0, k) {
        lemma_slot_from(e, k, i + 1);
    }
}

/// Where the keys ascend, the place of a key that is there is where it stands.
pub proof fn lemma_slot_of_key<T>(e: Seq<(Seq<char>, T)>, i: int)
    requires
        keys_ascending(e),
        0 <= i < e.len(),
    ensures
        slot(e, e[i].0) == i,
        has_key(e, e[i].0),
{
    let k = e[i].0;
    lemma_slot_from(e, k, 0);
    let p = slot(e, k);
    lemma_lex_irreflexive(k);
    if p < i {
        assert(lex_lt(e[p].0, e[i].0));
    } else if p > i {
        assert(lex_lt(e[i].0, k));
    }
}

/// Where the keys ascend, a key that is looked up and found stands at exactly one place.
pub proof fn lemma_lookup_found<T>(e: Seq<(Seq<char>, T)>, k: Seq<char>, i: int)
    requires
        keys_ascending(e),
        0 <= i < e.len(),
        e[i].0 == k,
    ensures
        lookup(e, k) == Some(e[i].1),
{
    lemma_slot_of_key(e, i);
}

/// A key that no entry holds is not found.
pub proof fn lemma_lookup_absent<T>(e: Seq<(Seq<char>, T)>, k: Seq<char>)
    requires
        forall|i: int| 0 <= i < e.len() ==> (#[trigger] e[i]).0 != k,
    ensures
        lookup(e, k) is None,
        !has_key(e, k),
{
    lemma_slot_from(e, k, 0);
}

/// `put` keeps the keys ascending.
pub proof fn lemma_put_ascending<T>(e: Seq<(Seq<char>, T)>, k: Seq<char>, v: T)
    requires
        keys_ascending(e),
    ensures
        keys_ascending(put(e, k, v)),
        has_key(e, k) ==> put(e, k, v).len() == e.len(),
        !has_key(e, k) ==> put(e, k, v).len() == e.len() + 1,
{
    lemma_slot_from(e, k, 0);
    let p = slot(e, k);
    let r = put(e, k, v);
    if has_key(e, k) {
        assert forall|i: int, j: int| 0 <= i < j < r.len() implies lex_lt(
            #[trigger] r[i].0,
            #[trigger] r[j].0,
        ) by {
            assert(lex_lt(e[i].0, e[j].0));
        }
    } else {
        if p < e.len() {
            lemma_lex_total(e[p].0, k);
        }
        assert forall|i: int, j: int| 0 <= i < j < r.len() implies lex_lt(
            #[trigger] r[i].0,
            #[trigger] r[j].0,
        ) by {
            if j < p {
                assert(lex_lt(e[i].0, e[j].0));
            } else if j == p {
                assert(lex_lt(e[i].0, k));
            } else if i < p {
                assert(lex_lt(e[i].0, k));
                if j - 1 > p {
                    assert(lex_lt(e[p].0, e[j - 1].0));
                    lemma_lex_transitive(k, e[p].0, e[j - 1].0);
                }
                lemma_lex_transitive(e[i].0, k, e[j - 1].0);
            } else if i == p {
                if j - 1 > p {
                    assert(lex_lt(e[p].0, e[j - 1].0));
                    lemma_lex_transitive(k, e[p].0, e[j - 1].0);
                }
            } else {
                assert(lex_lt(e[i - 1].0, e[j - 1].0));
            }
        }
    }
}

/// After `put`, the key holds the value that was put.
pub proof fn lemma_put_then_lookup<T>(e: Seq<(Seq<char>, T)>, k: Seq<char>, v: T)
    requires
        keys_ascending(e),
    ensures
        lookup(put(e, k, v), k) == Some(v),
{
    lemma_slot_from(e, k, 0);
    lemma_put_ascending(e, k, v);
    let p = slot(e, k);
    let r = put(e, k, v);
    assert(r[p].0 == k && r[p].1 == v);
    lemma_lookup_found(r, k, p);
}

/// `put` leaves every other key as it was.
pub proof fn lemma_put_keeps_others<T>(e: Seq<(Seq<char>, T)>, k: Seq<char>, v: T, other: Seq<char>)
    requires
        keys_ascending(e),
        other != k,
    ensures
        lookup(put(e, k, v), other) == lookup(e, other),
{
    lemma_slot_from(e, k, 0);
    lemma_slot_from(e, other, 0);
    lemma_put_ascending(e, k, v);
    let p = slot(e, k);
    let q = slot(e, other);
    let r = put(e, k, v);
    if has_key(e, other) {
        if has_key(e, k) {
            assert(r[q] == e[q]);
            lemma_lookup_found(r, other, q);
        } else {
            if q < p {
                assert(r[q] == e[q]);
                lemma_lookup_found(r, other, q);
            } else {
                assert(r[q + 1] == e[q]);
                lemma_lookup_found(r, other, q + 1);
            }
        }
    } else {
        assert forall|i: int| 0 <= i < r.len() implies (#[trigger] r[i]).0 != other by {
            if r[i].0 == other {
                if has_key(e, k) {
                    assert(e[i].0 == other);
                    lemma_lookup_found(e, other, i);
                } else if i < p {
                    assert(e[i].0 == other);
                    lemma_lookup_found(e, other, i);
                } else if i > p {
                    assert(e[i - 1].0 == other);
                    lemma_lookup_found(e, other, i - 1);
                }
            }
        }
        lemma_lookup_absent(r, other);
    }
}

/// A map from strings to values whose entries stand in the order of their keys, each key
/// once.
#[derive(Debug)]
pub struct TextMap<V: View> {
    entries: Vec<(String, V)>,
}

impl<V: View> View for TextMap<V> {
    type V = Seq<(Seq<char>, V::V)>;

    closed spec fn view(&self) -> Self::V {
        Seq::new(self.entries@.len(), |i: int| (self.entries@[i].0@, self.entries@[i].1@))
    }
}

impl<V: View> TextMap<V> {
    #[verifier::type_invariant]
    spec fn ascending(self) -> bool {
        keys_ascending(self@)
    }

    /// The map without entries.
    pub fn new() -> (r: Self)
        ensures
            r@ == Seq::<(Seq<char>, V::V)>::empty(),
    {
        let r = TextMap { entries: Vec::new() };
        assert(r@ =~= Seq::<(Seq<char>, V::V)>::empty());
        r
    }

    /// The number of entries. The keys of a map always ascend.
    pub fn len(&self) -> (n: usize)
        ensures
            n == self@.len(),
            keys_ascending(self@),
    {
        proof {
            use_type_invariant(self);
        }
        self.entries.len()
    }

    /// The key of the entry at place `i`.
    pub fn key(&self, i: usize) -> (k: &String)
        requires
            i < self@.len(),
        ensures
            k@ == self@[i as int].0,
    {
        &self.entries[i].0
    }

    /// The value of the entry at place `i`.
    pub fn value(&self, i: usize) -> (v: &V)
        requires
            i < self@.len(),
        ensures
            v@ == self@[i as int].1,
    {
        &self.entries[i].1
    }

    fn find_slot(&self, key: &str) -> (p: usize)
        ensures
            p == slot(self@, key@),
            p <= self@.len(),
    {
        let mut i: usize = 0;
        while i < self.entries.len() && str_lt(self.entries[i].0.as_str(), key)
            invariant
                i <= self.entries.len(),
                self.entries@.len() == self@.len(),
                slot(self@, key@) == slot_from(self@, key@, i as int),
                forall|j: int| 0 <= j < self@.len() ==> (#[trigger] self@[j]).0 == self.entries@[j].0@,
            decreases self.entries.len() - i,
        {
            i += 1;
        }
        i
    }

    /// The place of `key` among the entries, if it is a key.
    pub fn position(&self, key: &str) -> (r: Option<usize>)
        ensures
            r is Some <==> has_key(self@, key@),
            r matches Some(p) ==> p == slot(self@, key@) && p < self@.len(),
    {
        let p = self.find_slot(key);
        if p < self.entries.len() && str_eq(self.entries[p].0.as_str(), key) {
            Some(p)
        } else {
            None
        }
    }

    /// Whether `key` is a key of the map.
    pub fn contains_key(&self, key: &str) -> (r: bool)
        ensures
            r == has_key(self@, key@),
    {
        self.position(key).is_some()
    }

    /// The value under `key`, if any.
    pub fn get(&self, key: &str) -> (r: Option<&V>)
        ensures
            r is Some <==> has_key(self@, key@),
            r matches Some(v) ==> lookup(self@, key@) == Some(v@),
    {
        match self.position(key) {
            Some(p) => Some(&self.entries[p].1),
            None => None,
        }
    }

    /// Puts `value` under `key`, in place of what was there.
    pub fn insert(&mut self, key: String, value: V)
        ensures
            final(self)@ == put(old(self)@, key@, value@),
    {
        proof {
            use_type_invariant(&*self);
            lemma_put_ascending(self@, key@, value@);
            lemma_slot_from(self@, key@, 0);
        }
        let ghost before = self@;
        let p = self.find_slot(key.as_str());
        if p < self.entries.len() && str_eq(self.entries[p].0.as_str(), key.as_str()) {
            let mut entries: Vec<(String, V)> = Vec::new();
            std::mem::swap(&mut entries, &mut self.entries);
            entries.set(p, (key, value));
            assert(Seq::new(entries@.len(), |i: int| (entries@[i].0@, entries@[i].1@)) =~= put(
                before,
                key@,
                value@,
            ));
            *self = TextMap { entries };
        } else {
            let mut entries: Vec<(String, V)> = Vec::new();
            std::mem::swap(&mut entries, &mut self.entries);
            entries.insert(p, (key, value));
            assert(Seq::new(entries@.len(), |i: int| (entries@[i].0@, entries@[i].1@)) =~= put(
                before,
                key@,
                value@,
            ));
            *self = TextMap { entries };
        }
    }
}

impl TextMap<String> {
    /// A map with the same entries.
    pub fn copy(&self) -> (r: Self)
        ensures
            r@ == self@,
    {
        proof {
            use_type_invariant(self);
        }
        let mut entries: Vec<(String, String)> = Vec::new();
        let mut i: usize = 0;
        while i < self.entries.len()
            invariant
                i <= self.entries.len(),
                entries@.len() == i,
                forall|j: int|
                    0 <= j < i ==> (#[trigger] entries@[j]).0@ == self.entries@[j].0@
                        && entries@[j].1@ == self.entries@[j].1@,
            decreases self.entries.len() - i,
        {
            entries.push((self.entries[i].0.clone(), self.entries[i].1.clone()));
            i += 1;
        }
        assert(Seq::new(entries@.len(), |i: int| (entries@[i].0@, entries@[i].1@)) =~= self@);
        TextMap { entries }
    }
}

} // verus!
