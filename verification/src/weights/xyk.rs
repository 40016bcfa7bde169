//! Weights of the XYK exchange pallet.
use vstd::prelude::*;

use crate::weights::{cap, saturating_mul_u64, RuntimeDbWeight, Weight};

verus! {

/// The weights of the Basilisk runtime for the XYK exchange pallet.
pub struct BasiliskWeight;

/// The weight of `create_pool`.
pub open spec fn create_pool_weight(db: RuntimeDbWeight) -> Weight {
    Weight {
        ref_time: cap(95_053_000 + db.read * 17 + db.write * 16) as u64,
        proof_size: 0,
    }
}

/// The weight of `add_liquidity`.
pub open spec fn add_liquidity_weight(db: RuntimeDbWeight) -> Weight {
    Weight {
        ref_time: cap(85_155_000 + db.read * 13 + db.write * 8) as u64,
        proof_size: 0,
    }
}

/// The weight of `remove_liquidity`.
pub open spec fn remove_liquidity_weight(db: RuntimeDbWeight) -> Weight {
    Weight {
        ref_time: cap(79_736_000 + db.read * 12 + db.write * 7) as u64,
        proof_size: 0,
    }
}

/// The weight of `sell`.
pub open spec fn sell_weight(db: RuntimeDbWeight) -> Weight {
    Weight {
        ref_time: cap(62_708_000 + db.read * 9 + db.write * 4) as u64,
        proof_size: 0,
    }
}

/// The weight of `buy`.
pub open spec fn buy_weight(db: RuntimeDbWeight) -> Weight {
    Weight {
        ref_time: cap(62_885_000 + db.read * 9 + db.write * 4) as u64,
        proof_size: 0,
    }
}

impl BasiliskWeight {
    /// The weight of `create_pool`.
    pub fn create_pool(db: RuntimeDbWeight) -> (w: Weight)
        ensures
            w == create_pool_weight(db),
    {
        Weight::from_ref_time(95_053_000)
            .saturating_add(db.reads(17))
            .saturating_add(db.writes(16))
    }

    /// The weight of `add_liquidity`.
    pub fn add_liquidity(db: RuntimeDbWeight) -> (w: Weight)
        ensures
            w == add_liquidity_weight(db),
    {
        Weight::from_ref_time(85_155_000)
            .saturating_add(db.reads(13))
            .saturating_add(db.writes(8))
    }

    /// The weight of `remove_liquidity`.
    pub fn remove_liquidity(db: RuntimeDbWeight) -> (w: Weight)
        ensures
            w == remove_liquidity_weight(db),
    {
        Weight::from_ref_time(79_736_000)
            .saturating_add(db.reads(12))
            .saturating_add(db.writes(7))
    }

    /// The weight of `sell`.
    pub fn sell(db: RuntimeDbWeight) -> (w: Weight)
        ensures
            w == sell_weight(db),
    {
        Weight::from_ref_time(62_708_000)
            .saturating_add(db.reads(9))
            .saturating_add(db.writes(4))
    }

    /// The weight of `buy`.
    pub fn buy(db: RuntimeDbWeight) -> (w: Weight)
        ensures
            w == buy_weight(db),
    {
        Weight::from_ref_time(62_885_000)
            .saturating_add(db.reads(9))
            .saturating_add(db.writes(4))
    }
}

} // verus!
