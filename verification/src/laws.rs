//! Laws of the store's observable behavior.
//!
//! [`Store::get`](crate::store::Store::get) answers with
//! [`lookup`] of the store's contents, and
//! [`Store::set`](crate::store::Store::set) turns contents `m` into
//! `m.insert(key, value)`; every law below is stated over those same
//! terms, so it holds of any sequence of store operations as the
//! lock serializes them.

use vstd::prelude::*;
use crate::store::lookup;

verus! {

/// A key never written holds no value: reading it yields nothing,
/// which the handler answers with the null marker.
pub proof fn lemma_get_unset_key(m: Map<Seq<u8>, Seq<u8>>, k: Seq<u8>)
    requires
        !m.contains_key(k),
    ensures
        lookup(m, k) is None,
{
}

/// Read-your-writes, on any connection: once `SET k v` has taken
/// effect, a `GET k` against the resulting contents yields `v` —
/// every handler reads the same shared store, so the write is
/// visible across connections.
pub proof fn lemma_set_then_get(m: Map<Seq<u8>, Seq<u8>>, k: Seq<u8>, v: Seq<u8>)
    ensures
        lookup(m.insert(k, v), k) == Some(v),
{
}

/// The contents after a serialized run of writes of `vs` to one key
/// `k`, in order.
pub open spec fn after_writes(m: Map<Seq<u8>, Seq<u8>>, k: Seq<u8>, vs: Seq<Seq<u8>>) -> Map<
    Seq<u8>,
    Seq<u8>,
>
    decreases vs.len(),
{
    if vs.len() == 0 {
        m
    } else {
        after_writes(m, k, vs.drop_last()).insert(k, vs.last())
    }
}

/// Last write wins: after a serialized sequence of `SET k vi`, a
/// `GET k` yields the last value written, and no other key is
/// touched.
pub proof fn lemma_last_write_wins(m: Map<Seq<u8>, Seq<u8>>, k: Seq<u8>, vs: Seq<Seq<u8>>)
    requires
        vs.len() > 0,
    ensures
        lookup(after_writes(m, k, vs), k) == Some(vs.last()),
        forall|k2: Seq<u8>| k2 != k ==> lookup(after_writes(m, k, vs), k2) == lookup(m, k2),
    decreases vs.len(),
{
    if vs.len() > 1 {
        lemma_last_write_wins(m, k, vs.drop_last());
    }
    assert forall|k2: Seq<u8>| k2 != k implies lookup(after_writes(m, k, vs), k2) == lookup(
        m,
        k2,
    ) by {
        assert(after_writes(m, k, vs) == after_writes(m, k, vs.drop_last()).insert(k, vs.last()));
    }
}

/// Writes to different keys are independent: in whichever order the
/// lock serializes two `SET`s on distinct keys, the resulting
/// contents are the same, and each key reads back its own value —
/// neither write is lost or corrupted by the other.
pub proof fn lemma_independent_writes(
    m: Map<Seq<u8>, Seq<u8>>,
    k1: Seq<u8>,
    v1: Seq<u8>,
    k2: Seq<u8>,
    v2: Seq<u8>,
)
    requires
        k1 != k2,
    ensures
        m.insert(k1, v1).insert(k2, v2) == m.insert(k2, v2).insert(k1, v1),
        lookup(m.insert(k1, v1).insert(k2, v2), k1) == Some(v1),
        lookup(m.insert(k1, v1).insert(k2, v2), k2) == Some(v2),
{
    assert(m.insert(k1, v1).insert(k2, v2) =~= m.insert(k2, v2).insert(k1, v1));
}

} // verus!
