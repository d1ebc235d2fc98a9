use vstd::prelude::*;

use crate::session::{is_fresh, spec_is_fresh};
use crate::text::str_eq;

verus! {

/// One entry of a `OneTimeStore`: a key, when it was stored (monotonic
/// nanoseconds) and the value.
pub struct OneTimeEntry<T> {
    pub key: String,
    pub created_at: u64,
    pub value: T,
}

/// Values that are handed out once: the pending logins (keyed by the OAuth
/// `state`) and the issued authorization codes. Taking a key removes it, so
/// a second use of the same state or code finds nothing.
pub struct OneTimeStore<T> {
    entries: Vec<OneTimeEntry<T>>,
}

/// The entries whose key is not `k`.
pub open spec fn without_key<T>(s: Seq<OneTimeEntry<T>>, k: Seq<char>) -> Seq<OneTimeEntry<T>> {
    s.filter(|e: OneTimeEntry<T>| e.key@ != k)
}

/// The entries still fresh at `now` under `ttl`.
pub open spec fn fresh_entries<T>(s: Seq<OneTimeEntry<T>>, now: u64, ttl: u64) -> Seq<OneTimeEntry<T>> {
    s.filter(|e: OneTimeEntry<T>| spec_is_fresh(e.created_at, now, ttl))
}

/// The value stored under `k` (the latest one, were there several).
pub open spec fn lookup_entry<T>(s: Seq<OneTimeEntry<T>>, k: Seq<char>) -> Option<T>
    decreases s.len(),
{
    if s.len() == 0 {
        None
    } else if s.last().key@ == k {
        Some(s.last().value)
    } else {
        lookup_entry(s.drop_last(), k)
    }
}

impl<T> OneTimeStore<T> {
    /// The stored entries, oldest insertion first.
    pub closed spec fn entries(self) -> Seq<OneTimeEntry<T>> {
        self.entries@
    }

    /// An empty store.
    pub fn new() -> (r: Self)
        ensures
            r.entries() == Seq::<OneTimeEntry<T>>::empty(),
    {
        OneTimeStore { entries: Vec::new() }
    }

    /// Stores `value` under `key`, replacing what was stored under it.
    pub fn insert(&mut self, key: String, created_at: u64, value: T)
        ensures
            final(self).entries() == without_key(old(self).entries(), key@).push(
                OneTimeEntry { key, created_at, value },
            ),
    {
        let k = key.clone();
        let _ = self.take(k.as_str());
        self.entries.push(OneTimeEntry { key, created_at, value });
    }

    /// Removes the value stored under `key` and hands it out.
    pub fn take(&mut self, key: &str) -> (r: Option<T>)
        ensures
            r == lookup_entry(old(self).entries(), key@),
            final(self).entries() == without_key(old(self).entries(), key@),
    {
        let n = self.entries.len();
        let ghost orig = self.entries@;
        let ghost p = |e: OneTimeEntry<T>| e.key@ != key@;
        let mut rest: Vec<OneTimeEntry<T>> = Vec::new();
        std::mem::swap(&mut rest, &mut self.entries);
        let mut found: Option<T> = None;
        let mut i: usize = 0;
        proof {
            reveal(Seq::filter);
            assert(orig.take(0).filter(p) =~= Seq::<OneTimeEntry<T>>::empty());
            assert(orig.skip(0) =~= orig);
        }
        while rest.len() > 0
            invariant
                0 <= i <= orig.len(),
                orig.len() == n,
                rest@ == orig.skip(i as int),
                self.entries@ == orig.take(i as int).filter(p),
                found == lookup_entry(orig.take(i as int), key@),
                p == (|e: OneTimeEntry<T>| e.key@ != key@),
            decreases rest@.len(),
        {
            let e = rest.remove(0);
            proof {
                reveal(Seq::filter);
                assert(e == orig[i as int]);
                assert(orig.take(i + 1).drop_last() =~= orig.take(i as int));
                assert(orig.take(i + 1).last() == e);
                assert(orig.skip(i + 1) =~= orig.skip(i as int).remove(0));
            }
            if str_eq(e.key.as_str(), key) {
                found = Some(e.value);
            } else {
                self.entries.push(e);
            }
            i = i + 1;
        }
        proof {
            assert(orig.take(i as int) =~= orig);
        }
        found
    }

    /// Drops the entries that are no longer fresh at `now` under `ttl`.
    pub fn remove_stale(&mut self, now: u64, ttl: u64)
        ensures
            final(self).entries() == fresh_entries(old(self).entries(), now, ttl),
    {
        let n = self.entries.len();
        let ghost orig = self.entries@;
        let ghost p = |e: OneTimeEntry<T>| spec_is_fresh(e.created_at, now, ttl);
        let mut rest: Vec<OneTimeEntry<T>> = Vec::new();
        std::mem::swap(&mut rest, &mut self.entries);
        let mut i: usize = 0;
        proof {
            reveal(Seq::filter);
            assert(orig.take(0).filter(p) =~= Seq::<OneTimeEntry<T>>::empty());
            assert(orig.skip(0) =~= orig);
        }
        while rest.len() > 0
            invariant
                0 <= i <= orig.len(),
                orig.len() == n,
                rest@ == orig.skip(i as int),
                self.entries@ == orig.take(i as int).filter(p),
                p == (|e: OneTimeEntry<T>| spec_is_fresh(e.created_at, now, ttl)),
            decreases rest@.len(),
        {
            let e = rest.remove(0);
            proof {
                reveal(Seq::filter);
                assert(e == orig[i as int]);
                assert(orig.take(i + 1).drop_last() =~= orig.take(i as int));
                assert(orig.take(i + 1).last() == e);
                assert(orig.skip(i + 1) =~= orig.skip(i as int).remove(0));
            }
            if is_fresh(e.created_at, now, ttl) {
                self.entries.push(e);
            }
            i = i + 1;
        }
        proof {
            assert(orig.take(i as int) =~= orig);
        }
    }

    /// How many entries are stored.
    pub fn len(&self) -> (r: usize)
        ensures
            r == self.entries().len(),
    {
        self.entries.len()
    }
}

/// Law: a key is used once. After `take(k)` the store holds nothing under
/// `k`, so taking `k` again gives `None`; other keys keep their values.
pub proof fn lemma_take_is_single_use<T>(s: Seq<OneTimeEntry<T>>, k: Seq<char>, other: Seq<char>)
    requires
        other != k,
    ensures
        lookup_entry(without_key(s, k), k) is None,
        lookup_entry(without_key(s, k), other) == lookup_entry(s, other),
    decreases s.len(),
{
    reveal(Seq::filter);
    if s.len() > 0 {
        lemma_take_is_single_use(s.drop_last(), k, other);
        let sub = without_key(s.drop_last(), k);
        if s.last().key@ != k {
            assert(without_key(s, k) == sub.push(s.last()));
            assert(sub.push(s.last()).drop_last() =~= sub);
            assert(sub.push(s.last()).last() == s.last());
        } else {
            assert(without_key(s, k) == sub);
        }
    }
}

/// Law: what was just stored under a key is what taking that key gives.
pub proof fn lemma_take_after_insert<T>(s: Seq<OneTimeEntry<T>>, e: OneTimeEntry<T>)
    ensures
        lookup_entry(without_key(s, e.key@).push(e), e.key@) == Some(e.value),
{
    assert(without_key(s, e.key@).push(e).last() == e);
}

} // verus!
