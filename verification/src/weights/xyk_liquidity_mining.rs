//! Weights of liquidity mining on XYK pools.
use vstd::prelude::*;

use crate::weights::{cap, saturating_mul_u64, RuntimeDbWeight, Weight};

verus! {

/// The weights of the Basilisk runtime for liquidity mining on XYK pools.
pub struct BasiliskWeight;

/// The weight of `create_global_farm`.
pub open spec fn create_global_farm_weight(db: RuntimeDbWeight) -> Weight {
    Weight {
        ref_time: cap(34_966_000 + db.read * 4 + db.write * 5) as u64,
        proof_size: 0,
    }
}

/// The weight of `update_global_farm`.
pub open spec fn update_global_farm_weight(db: RuntimeDbWeight) -> Weight {
    Weight {
        ref_time: cap(40_766_000 + db.read * 4 + db.write * 3) as u64,
        proof_size: 0,
    }
}

/// The weight of `terminate_global_farm`.
pub open spec fn terminate_global_farm_weight(db: RuntimeDbWeight) -> Weight {
    Weight {
        ref_time: cap(37_409_000 + db.read * 4 + db.write * 4) as u64,
        proof_size: 0,
    }
}

/// The weight of `create_yield_farm`.
pub open spec fn create_yield_farm_weight(db: RuntimeDbWeight) -> Weight {
    Weight {
        ref_time: cap(55_152_000 + db.read * 7 + db.write * 6) as u64,
        proof_size: 0,
    }
}

/// The weight of `update_yield_farm`.
pub open spec fn update_yield_farm_weight(db: RuntimeDbWeight) -> Weight {
    Weight {
        ref_time: cap(58_410_000 + db.read * 7 + db.write * 4) as u64,
        proof_size: 0,
    }
}

/// The weight of `stop_yield_farm`.
pub open spec fn stop_yield_farm_weight(db: RuntimeDbWeight) -> Weight {
    Weight {
        ref_time: cap(54_719_000 + db.read * 6 + db.write * 5) as u64,
        proof_size: 0,
    }
}

/// The weight of `terminate_yield_farm`.
pub open spec fn terminate_yield_farm_weight(db: RuntimeDbWeight) -> Weight {
    Weight {
        ref_time: cap(39_064_000 + db.read * 5 + db.write * 4) as u64,
        proof_size: 0,
    }
}

/// The weight of `deposit_shares`.
pub open spec fn deposit_shares_weight(db: RuntimeDbWeight) -> Weight {
    Weight {
        ref_time: cap(130_027_000 + db.read * 22 + db.write * 13) as u64,
        proof_size: 0,
    }
}

/// The weight of `redeposit_shares`.
pub open spec fn redeposit_shares_weight(db: RuntimeDbWeight) -> Weight {
    Weight {
        ref_time: cap(56_085_000 + db.read * 9 + db.write * 3) as u64,
        proof_size: 0,
    }
}

/// The weight of `claim_rewards`.
pub open spec fn claim_rewards_weight(db: RuntimeDbWeight) -> Weight {
    Weight {
        ref_time: cap(70_151_000 + db.read * 8 + db.write * 6) as u64,
        proof_size: 0,
    }
}

/// The weight of `withdraw_shares`.
pub open spec fn withdraw_shares_weight(db: RuntimeDbWeight) -> Weight {
    Weight {
        ref_time: cap(150_295_000 + db.read * 19 + db.write * 15) as u64,
        proof_size: 0,
    }
}

/// The weight of `resume_yield_farm`.
pub open spec fn resume_yield_farm_weight(db: RuntimeDbWeight) -> Weight {
    Weight {
        ref_time: cap(57_202_000 + db.read * 7 + db.write * 5) as u64,
        proof_size: 0,
    }
}

impl BasiliskWeight {
    /// The weight of `create_global_farm`.
    pub fn create_global_farm(db: RuntimeDbWeight) -> (w: Weight)
        ensures
            w == create_global_farm_weight(db),
    {
        Weight::from_ref_time(34_966_000)
            .saturating_add(db.reads(4))
            .saturating_add(db.writes(5))
    }

    /// The weight of `update_global_farm`.
    pub fn update_global_farm(db: RuntimeDbWeight) -> (w: Weight)
        ensures
            w == update_global_farm_weight(db),
    {
        Weight::from_ref_time(40_766_000)
            .saturating_add(db.reads(4))
            .saturating_add(db.writes(3))
    }

    /// The weight of `terminate_global_farm`.
    pub fn terminate_global_farm(db: RuntimeDbWeight) -> (w: Weight)
        ensures
            w == terminate_global_farm_weight(db),
    {
        Weight::from_ref_time(37_409_000)
            .saturating_add(db.reads(4))
            .saturating_add(db.writes(4))
    }

    /// The weight of `create_yield_farm`.
    pub fn create_yield_farm(db: RuntimeDbWeight) -> (w: Weight)
        ensures
            w == create_yield_farm_weight(db),
    {
        Weight::from_ref_time(55_152_000)
            .saturating_add(db.reads(7))
            .saturating_add(db.writes(6))
    }

    /// The weight of `update_yield_farm`.
    pub fn update_yield_farm(db: RuntimeDbWeight) -> (w: Weight)
        ensures
            w == update_yield_farm_weight(db),
    {
        Weight::from_ref_time(58_410_000)
            .saturating_add(db.reads(7))
            .saturating_add(db.writes(4))
    }

    /// The weight of `stop_yield_farm`.
    pub fn stop_yield_farm(db: RuntimeDbWeight) -> (w: Weight)
        ensures
            w == stop_yield_farm_weight(db),
    {
        Weight::from_ref_time(54_719_000)
            .saturating_add(db.reads(6))
            .saturating_add(db.writes(5))
    }

    /// The weight of `terminate_yield_farm`.
    pub fn terminate_yield_farm(db: RuntimeDbWeight) -> (w: Weight)
        ensures
            w == terminate_yield_farm_weight(db),
    {
        Weight::from_ref_time(39_064_000)
            .saturating_add(db.reads(5))
            .saturating_add(db.writes(4))
    }

    /// The weight of `deposit_shares`.
    pub fn deposit_shares(db: RuntimeDbWeight) -> (w: Weight)
        ensures
            w == deposit_shares_weight(db),
    {
        Weight::from_ref_time(130_027_000)
            .saturating_add(db.reads(22))
            .saturating_add(db.writes(13))
    }

    /// The weight of `redeposit_shares`.
    pub fn redeposit_shares(db: RuntimeDbWeight) -> (w: Weight)
        ensures
            w == redeposit_shares_weight(db),
    {
        Weight::from_ref_time(56_085_000)
            .saturating_add(db.reads(9))
            .saturating_add(db.writes(3))
    }

    /// The weight of `claim_rewards`.
    pub fn claim_rewards(db: RuntimeDbWeight) -> (w: Weight)
        ensures
            w == claim_rewards_weight(db),
    {
        Weight::from_ref_time(70_151_000)
            .saturating_add(db.reads(8))
            .saturating_add(db.writes(6))
    }

    /// The weight of `withdraw_shares`.
    pub fn withdraw_shares(db: RuntimeDbWeight) -> (w: Weight)
        ensures
            w == withdraw_shares_weight(db),
    {
        Weight::from_ref_time(150_295_000)
            .saturating_add(db.reads(19))
            .saturating_add(db.writes(15))
    }

    /// The weight of `resume_yield_farm`.
    pub fn resume_yield_farm(db: RuntimeDbWeight) -> (w: Weight)
        ensures
            w == resume_yield_farm_weight(db),
    {
        Weight::from_ref_time(57_202_000)
            .saturating_add(db.reads(7))
            .saturating_add(db.writes(5))
    }
}

} // verus!
