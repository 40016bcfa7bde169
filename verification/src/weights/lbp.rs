//! Weights of the liquidity bootstrapping pallet.
use vstd::prelude::*;

use crate::weights::{cap, saturating_mul_u64, RuntimeDbWeight, Weight};

verus! {

/// The weights of the Basilisk runtime for the liquidity bootstrapping pallet.
pub struct BasiliskWeight;

/// The weight of `create_pool`.
pub open spec fn create_pool_weight(db: RuntimeDbWeight) -> Weight {
    Weight {
        ref_time: cap(140_984_000 + db.read * 10 + db.write * 7) as u64,
        proof_size: 0,
    }
}

/// The weight of `update_pool_data`.
pub open spec fn update_pool_data_weight(db: RuntimeDbWeight) -> Weight {
    Weight {
        ref_time: cap(34_779_000 + db.read * 2 + db.write * 3) as u64,
        proof_size: 0,
    }
}

/// The weight of `add_liquidity`.
pub open spec fn add_liquidity_weight(db: RuntimeDbWeight) -> Weight {
    Weight {
        ref_time: cap(103_702_000 + db.read * 8 + db.write * 4) as u64,
        proof_size: 0,
    }
}

/// The weight of `remove_liquidity`.
pub open spec fn remove_liquidity_weight(db: RuntimeDbWeight) -> Weight {
    Weight {
        ref_time: cap(122_228_000 + db.read * 9 + db.write * 7) as u64,
        proof_size: 0,
    }
}

/// The weight of `sell`.
pub open spec fn sell_weight(db: RuntimeDbWeight) -> Weight {
    Weight {
        ref_time: cap(183_378_000 + db.read * 12 + db.write * 7) as u64,
        proof_size: 0,
    }
}

/// The weight of `buy`.
pub open spec fn buy_weight(db: RuntimeDbWeight) -> Weight {
    Weight {
        ref_time: cap(183_014_000 + db.read * 12 + db.write * 7) as u64,
        proof_size: 0,
    }
}

impl BasiliskWeight {
    /// The weight of `create_pool`.
    pub fn create_pool(db: RuntimeDbWeight) -> (w: Weight)
        ensures
            w == create_pool_weight(db),
    {
        Weight::from_ref_time(140_984_000)
            .saturating_add(db.reads(10))
            .saturating_add(db.writes(7))
    }

    /// The weight of `update_pool_data`.
    pub fn update_pool_data(db: RuntimeDbWeight) -> (w: Weight)
        ensures
            w == update_pool_data_weight(db),
    {
        Weight::from_ref_time(34_779_000)
            .saturating_add(db.reads(2))
            .saturating_add(db.writes(3))
    }

    /// The weight of `add_liquidity`.
    pub fn add_liquidity(db: RuntimeDbWeight) -> (w: Weight)
        ensures
            w == add_liquidity_weight(db),
    {
        Weight::from_ref_time(103_702_000)
            .saturating_add(db.reads(8))
            .saturating_add(db.writes(4))
    }

    /// The weight of `remove_liquidity`.
    pub fn remove_liquidity(db: RuntimeDbWeight) -> (w: Weight)
        ensures
            w == remove_liquidity_weight(db),
    {
        Weight::from_ref_time(122_228_000)
            .saturating_add(db.reads(9))
            .saturating_add(db.writes(7))
    }

    /// The weight of `sell`.
    pub fn sell(db: RuntimeDbWeight) -> (w: Weight)
        ensures
            w == sell_weight(db),
    {
        Weight::from_ref_time(183_378_000)
            .saturating_add(db.reads(12))
            .saturating_add(db.writes(7))
    }

    /// The weight of `buy`.
    pub fn buy(db: RuntimeDbWeight) -> (w: Weight)
        ensures
            w == buy_weight(db),
    {
        Weight::from_ref_time(183_014_000)
            .saturating_add(db.reads(12))
            .saturating_add(db.writes(7))
    }
}

} // verus!
