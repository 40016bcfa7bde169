//! Benchmarked weights of the runtime's calls.
//!
//! A weight has two components: the reference time of a call, in picoseconds, and the size of
//! the storage proof it needs, in bytes. Each formula adds a base weight, a weight per unit of
//! each component of the call, and the cost of its storage reads and writes; every addition
//! and multiplication saturates at `u64::MAX`, so that a formula is the exact sum, capped.
use vstd::prelude::*;

pub mod democracy;
pub mod lbp;
pub mod liquidity_mining;
pub mod pallet_democracy;
pub mod pallet_elections_phragmen;
pub mod pallet_ema_oracle;
pub mod pallet_tips;
pub mod tips;
pub mod xyk;
pub mod xyk_liquidity_mining;

verus! {

/// `x` capped at `u64::MAX`.
pub open spec fn cap(x: int) -> int {
    if x > u64::MAX {
        u64::MAX as int
    } else {
        x
    }
}

/// The weight of a call: reference time and proof size.
#[derive(Clone, Copy, Debug, PartialEq, Eq, Structural)]
pub struct Weight {
    pub ref_time: u64,
    pub proof_size: u64,
}

/// `a * b`, capped at `u64::MAX`.
pub fn saturating_mul_u64(a: u64, b: u64) -> (r: u64)
    ensures
        r == cap(a * b),
{
    match a.checked_mul(b) {
        Some(p) => p,
        None => u64::MAX,
    }
}

impl Weight {
    /// The weight with both components zero.
    pub fn zero() -> (w: Weight)
        ensures
            w.ref_time == 0,
            w.proof_size == 0,
    {
        Weight { ref_time: 0, proof_size: 0 }
    }

    /// The weight of the given reference time and proof size.
    pub fn from_parts(ref_time: u64, proof_size: u64) -> (w: Weight)
        ensures
            w.ref_time == ref_time,
            w.proof_size == proof_size,
    {
        Weight { ref_time, proof_size }
    }

    /// The weight of the given reference time and no proof size.
    pub fn from_ref_time(ref_time: u64) -> (w: Weight)
        ensures
            w.ref_time == ref_time,
            w.proof_size == 0,
    {
        Weight { ref_time, proof_size: 0 }
    }

    /// The sum of two weights, each component capped at `u64::MAX`.
    pub fn saturating_add(self, rhs: Weight) -> (w: Weight)
        ensures
            w.ref_time == cap(self.ref_time + rhs.ref_time),
            w.proof_size == cap(self.proof_size + rhs.proof_size),
    {
        Weight {
            ref_time: self.ref_time.saturating_add(rhs.ref_time),
            proof_size: self.proof_size.saturating_add(rhs.proof_size),
        }
    }

    /// The weight times `k`, each component capped at `u64::MAX`.
    pub fn saturating_mul(self, k: u64) -> (w: Weight)
        ensures
            w.ref_time == cap(self.ref_time * k),
            w.proof_size == cap(self.proof_size * k),
    {
        Weight {
            ref_time: saturating_mul_u64(self.ref_time, k),
            proof_size: saturating_mul_u64(self.proof_size, k),
        }
    }
}

/// The reference time of one storage read and of one storage write.
#[derive(Clone, Copy, Debug, PartialEq, Eq, Structural)]
pub struct RuntimeDbWeight {
    pub read: u64,
    pub write: u64,
}

impl RuntimeDbWeight {
    /// The costs of the RocksDB backend: 25 microseconds a read, 100 a write.
    pub fn rocks_db() -> (db: RuntimeDbWeight)
        ensures
            db.read == 25_000_000,
            db.write == 100_000_000,
    {
        RuntimeDbWeight { read: 25_000_000, write: 100_000_000 }
    }

    /// The weight of `r` reads.
    pub fn reads(self, r: u64) -> (w: Weight)
        ensures
            w.ref_time == cap(self.read * r),
            w.proof_size == 0,
    {
        Weight { ref_time: saturating_mul_u64(self.read, r), proof_size: 0 }
    }

    /// The weight of `n` writes.
    pub fn writes(self, n: u64) -> (w: Weight)
        ensures
            w.ref_time == cap(self.write * n),
            w.proof_size == 0,
    {
        Weight { ref_time: saturating_mul_u64(self.write, n), proof_size: 0 }
    }
}

/// The RocksDB costs as a spec value.
pub open spec fn rocks_db_weight() -> RuntimeDbWeight {
    RuntimeDbWeight { read: 25_000_000, write: 100_000_000 }
}

/// A capped sum grows with what it sums.
pub proof fn lemma_cap_monotone(x: int, y: int)
    requires
        x <= y,
    ensures
        cap(x) <= cap(y),
{
}

} // verus!
