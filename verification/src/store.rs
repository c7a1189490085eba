//! The shared key-value store.
//!
//! A [`Store`] is the single mapping from key to value that makes up
//! the server's entire state. Keys are byte strings and are unique
//! among the entries; values are opaque byte payloads. The store's
//! mathematical content is a `Map<Seq<u8>, Seq<u8>>`, and every
//! operation is specified against that map.
//!
//! The store itself is plain data. Sharing it across concurrently
//! scheduled connection handlers is the embedding program's job: it
//! wraps the store in an exclusive lock, holds the lock only around a
//! single [`Store::get`] or [`Store::set`] call, and releases it
//! before any I/O, so no handler can observe a torn intermediate
//! state and the lock never spans a suspension point.

use vstd::prelude::*;
use vstd::std_specs::cmp::PartialEqSpec;

verus! {

/// The mapping described by a sequence of key-value entries: each
/// entry binds its key, later entries taking precedence.
pub open spec fn entries_map(s: Seq<(Vec<u8>, Vec<u8>)>) -> Map<Seq<u8>, Seq<u8>>
    decreases s.len(),
{
    if s.len() == 0 {
        Map::empty()
    } else {
        entries_map(s.drop_last()).insert(s.last().0@, s.last().1@)
    }
}

/// No two entries bind the same key.
pub open spec fn unique_keys(s: Seq<(Vec<u8>, Vec<u8>)>) -> bool {
    forall|i: int, j: int| 0 <= i < j < s.len() ==> s[i].0@ != s[j].0@
}

/// What reading key `k` from store contents `m` yields: the bound
/// value, or nothing when the key is absent. Absence is a normal
/// outcome, not a failure.
pub open spec fn lookup(m: Map<Seq<u8>, Seq<u8>>, k: Seq<u8>) -> Option<Seq<u8>> {
    if m.contains_key(k) {
        Some(m[k])
    } else {
        None
    }
}

/// The single key-value mapping shared by every connection handler.
pub struct Store {
    entries: Vec<(Vec<u8>, Vec<u8>)>,
}

impl View for Store {
    type V = Map<Seq<u8>, Seq<u8>>;

    closed spec fn view(&self) -> Map<Seq<u8>, Seq<u8>> {
        entries_map(self.entries@)
    }
}

proof fn lemma_absent_key(s: Seq<(Vec<u8>, Vec<u8>)>, k: Seq<u8>)
    requires
        forall|i: int| 0 <= i < s.len() ==> s[i].0@ != k,
    ensures
        !entries_map(s).contains_key(k),
    decreases s.len(),
{
    if s.len() > 0 {
        lemma_absent_key(s.drop_last(), k);
    }
}

proof fn lemma_found_key(s: Seq<(Vec<u8>, Vec<u8>)>, i: int, k: Seq<u8>)
    requires
        unique_keys(s),
        0 <= i < s.len(),
        s[i].0@ == k,
    ensures
        entries_map(s).contains_key(k),
        entries_map(s)[k] == s[i].1@,
    decreases s.len(),
{
    if i == s.len() - 1 {
    } else {
        assert(unique_keys(s.drop_last()));
        lemma_found_key(s.drop_last(), i, k);
        assert(s.last().0@ != k);
    }
}

proof fn lemma_update_entry(s: Seq<(Vec<u8>, Vec<u8>)>, i: int, p: (Vec<u8>, Vec<u8>))
    requires
        unique_keys(s),
        0 <= i < s.len(),
        p.0@ == s[i].0@,
    ensures
        entries_map(s.update(i, p)) == entries_map(s).insert(p.0@, p.1@),
        unique_keys(s.update(i, p)),
    decreases s.len(),
{
    let t = s.update(i, p);
    assert(forall|j: int| 0 <= j < s.len() && j != i ==> t[j] == s[j]);
    if i == s.len() - 1 {
        assert(t.drop_last() =~= s.drop_last());
        assert(t.last() == p);
        assert(entries_map(t) =~= entries_map(s).insert(p.0@, p.1@));
    } else {
        assert(unique_keys(s.drop_last()));
        lemma_update_entry(s.drop_last(), i, p);
        assert(t.drop_last() =~= s.drop_last().update(i, p));
        assert(t.last() == s.last());
        assert(s.last().0@ != p.0@);
        assert(entries_map(t) =~= entries_map(s).insert(p.0@, p.1@));
    }
}

proof fn lemma_push_entry(s: Seq<(Vec<u8>, Vec<u8>)>, p: (Vec<u8>, Vec<u8>))
    requires
        unique_keys(s),
        forall|i: int| 0 <= i < s.len() ==> s[i].0@ != p.0@,
    ensures
        entries_map(s.push(p)) == entries_map(s).insert(p.0@, p.1@),
        unique_keys(s.push(p)),
{
    assert(s.push(p).drop_last() =~= s);
    assert(s.push(p).last() == p);
}

impl Store {
    /// The store's internal invariant: entry keys are pairwise
    /// distinct, so each key is bound at most once. Every
    /// constructor establishes it and every method preserves it.
    #[verifier::type_invariant]
    spec fn wf(&self) -> bool {
        unique_keys(self.entries@)
    }

    /// Creates the one store of the process, initially empty. It is
    /// created once at startup and handed by shared reference to
    /// every connection handler.
    pub fn new() -> (s: Store)
        ensures
            s@ == Map::<Seq<u8>, Seq<u8>>::empty(),
    {
        Store { entries: Vec::new() }
    }

    /// The index of the entry binding `key`, if any.
    fn index_of(&self, key: &Vec<u8>) -> (r: Option<usize>)
        ensures
            match r {
                Some(i) => i < self.entries@.len() && self.entries@[i as int].0@ == key@,
                None => forall|j: int| 0 <= j < self.entries@.len() ==> self.entries@[j].0@ != key@,
            },
    {
        let n = self.entries.len();
        let mut i: usize = 0;
        while i < n
            invariant
                n == self.entries@.len(),
                i <= n,
                forall|j: int| 0 <= j < i ==> self.entries@[j].0@ != key@,
            decreases n - i,
        {
            if self.entries[i].0 == *key {
                proof {
                    assert(self.entries@[i as int].0@ =~= key@);
                }
                return Some(i);
            }
            proof {
                assert(self.entries@[i as int].0@ != key@) by {
                    if self.entries@[i as int].0@ == key@ {
                        assert(self.entries@[i as int].0.eq_spec(key));
                    }
                }
            }
            i += 1;
        }
        None
    }

    /// Reads the value bound to `key`. Both this and [`Store::set`]
    /// must appear atomic to all observers; the embedding program
    /// guarantees that by calling them only under the store's lock.
    pub fn get(&self, key: &Vec<u8>) -> (r: Option<Vec<u8>>)
        ensures
            r matches Some(v) ==> lookup(self@, key@) == Some(v@),
            r is None ==> lookup(self@, key@) is None,
    {
        proof {
            use_type_invariant(&*self);
        }
        match self.index_of(key) {
            Some(i) => {
                let v = self.entries[i].1.clone();
                proof {
                    lemma_found_key(self.entries@, i as int, key@);
                    assert(v@ =~= self.entries@[i as int].1@);
                }
                Some(v)
            }
            None => {
                proof {
                    lemma_absent_key(self.entries@, key@);
                }
                None
            }
        }
    }

    /// Binds `key` to `value`, overwriting any prior value for that
    /// key. Overwriting is the only side effect; no error conditions
    /// exist.
    pub fn set(&mut self, key: Vec<u8>, value: Vec<u8>)
        ensures
            final(self)@ == old(self)@.insert(key@, value@),
    {
        proof {
            use_type_invariant(&*self);
        }
        let idx = self.index_of(&key);
        let mut entries: Vec<(Vec<u8>, Vec<u8>)> = Vec::new();
        core::mem::swap(&mut entries, &mut self.entries);
        match idx {
            Some(i) => {
                proof {
                    lemma_update_entry(entries@, i as int, (key, value));
                }
                entries[i] = (key, value);
            }
            None => {
                proof {
                    lemma_push_entry(entries@, (key, value));
                }
                entries.push((key, value));
            }
        }
        self.entries = entries;
    }
}

} // verus!
