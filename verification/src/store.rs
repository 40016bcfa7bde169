//! Storage maps keyed by one or two integer identifiers.
use vstd::prelude::*;

use std::collections::HashMap;

verus! {

broadcast use vstd::std_specs::hash::group_hash_axioms;

/// The single integer under which a pair of keys is stored.
pub open spec fn pack(k1: u64, k2: u64) -> int {
    k1 * 0x1_0000_0000_0000_0000 + k2
}

proof fn lemma_pack_bounds(k1: u64, k2: u64)
    ensures
        0 <= pack(k1, k2) <= u128::MAX,
{
    assert(0 <= k1 * 0x1_0000_0000_0000_0000 <= 0xffff_ffff_ffff_ffff * 0x1_0000_0000_0000_0000)
        by (nonlinear_arith)
        requires
            0 <= k1 <= 0xffff_ffff_ffff_ffff,
    ;
}

proof fn lemma_pack_injective(a: u64, b: u64, c: u64, d: u64)
    requires
        pack(a, b) == pack(c, d),
    ensures
        a == c,
        b == d,
{
    assert(a == c) by (nonlinear_arith)
        requires
            a * 0x1_0000_0000_0000_0000 + b == c * 0x1_0000_0000_0000_0000 + d,
            0 <= b < 0x1_0000_0000_0000_0000,
            0 <= d < 0x1_0000_0000_0000_0000,
            0 <= a,
            0 <= c,
    ;
}

fn pack_key(k1: u64, k2: u64) -> (k: u128)
    ensures
        k == pack(k1, k2),
{
    proof {
        lemma_pack_bounds(k1, k2);
    }
    (k1 as u128) * 0x1_0000_0000_0000_0000u128 + (k2 as u128)
}

/// A map from pairs of identifiers to values, as a storage double map holds them.
pub struct DoubleMap<V> {
    inner: HashMap<u128, V>,
}

impl<V> View for DoubleMap<V> {
    type V = Map<(u64, u64), V>;

    closed spec fn view(&self) -> Map<(u64, u64), V> {
        Map::new(
            |k: (u64, u64)| self.inner@.contains_key(pack(k.0, k.1) as u128),
            |k: (u64, u64)| self.inner@[pack(k.0, k.1) as u128],
        )
    }
}

impl<V> DoubleMap<V> {
    /// An empty map.
    pub fn new() -> (m: Self)
        ensures
            m@ == Map::<(u64, u64), V>::empty(),
    {
        let m = DoubleMap { inner: HashMap::new() };
        assert(m@ =~= Map::<(u64, u64), V>::empty());
        m
    }

    /// The value stored under `(k1, k2)`, if any.
    pub fn get(&self, k1: u64, k2: u64) -> (r: Option<&V>)
        ensures
            match r {
                Some(v) => self@.contains_key((k1, k2)) && self@[(k1, k2)] == *v,
                None => !self@.contains_key((k1, k2)),
            },
    {
        let k = pack_key(k1, k2);
        self.inner.get(&k)
    }

    /// Whether a value is stored under `(k1, k2)`.
    pub fn contains_key(&self, k1: u64, k2: u64) -> (r: bool)
        ensures
            r == self@.contains_key((k1, k2)),
    {
        let k = pack_key(k1, k2);
        self.inner.contains_key(&k)
    }

    /// Stores `v` under `(k1, k2)`, replacing what was there.
    pub fn insert(&mut self, k1: u64, k2: u64, v: V)
        ensures
            final(self)@ == old(self)@.insert((k1, k2), v),
    {
        let k = pack_key(k1, k2);
        self.inner.insert(k, v);
        proof {
            assert forall|key: (u64, u64)| #![auto] (pack(key.0, key.1) == pack(k1, k2)) == (key == (k1, k2)) by {
                if pack(key.0, key.1) == pack(k1, k2) {
                    lemma_pack_injective(key.0, key.1, k1, k2);
                }
            }
            assert(self@ =~= old(self)@.insert((k1, k2), v));
        }
    }

    /// Removes what is stored under `(k1, k2)` and returns it.
    pub fn remove(&mut self, k1: u64, k2: u64) -> (r: Option<V>)
        ensures
            final(self)@ == old(self)@.remove((k1, k2)),
            match r {
                Some(v) => old(self)@.contains_key((k1, k2)) && old(self)@[(k1, k2)] == v,
                None => !old(self)@.contains_key((k1, k2)),
            },
    {
        let k = pack_key(k1, k2);
        let r = self.inner.remove(&k);
        proof {
            assert forall|key: (u64, u64)| #![auto] (pack(key.0, key.1) == pack(k1, k2)) == (key == (k1, k2)) by {
                if pack(key.0, key.1) == pack(k1, k2) {
                    lemma_pack_injective(key.0, key.1, k1, k2);
                }
            }
            assert(self@ =~= old(self)@.remove((k1, k2)));
        }
        r
    }
}

} // verus!
