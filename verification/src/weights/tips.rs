//! Weights of the tips pallet, as benchmarked for the treasury tips.
use vstd::prelude::*;

use crate::weights::{cap, saturating_mul_u64, RuntimeDbWeight, Weight};

verus! {

/// The weights of the Basilisk runtime for the tips pallet, as benchmarked for the treasury tips.
pub struct BasiliskWeight;

/// The weight of `report_awesome`.
pub open spec fn report_awesome_weight(db: RuntimeDbWeight, r: u32) -> Weight {
    Weight {
        ref_time: cap(40_759_457 + 1_534 * r + db.read * 2 + db.write * 2) as u64,
        proof_size: 3_468,
    }
}

/// The weight of `retract_tip`.
pub open spec fn retract_tip_weight(db: RuntimeDbWeight) -> Weight {
    Weight {
        ref_time: cap(37_632_000 + db.read * 1 + db.write * 2) as u64,
        proof_size: 3_685,
    }
}

/// The weight of `tip_new`.
pub open spec fn tip_new_weight(db: RuntimeDbWeight, r: u32, t: u32) -> Weight {
    Weight {
        ref_time: cap(26_937_982 + 1_790 * r + 97_556 * t + db.read * 2 + db.write * 2) as u64,
        proof_size: cap(3_703 + 64 * t) as u64,
    }
}

/// The weight of `tip`.
pub open spec fn tip_weight(db: RuntimeDbWeight, t: u32) -> Weight {
    Weight {
        ref_time: cap(21_367_368 + 197_604 * t + db.read * 2 + db.write * 1) as u64,
        proof_size: cap(3_924 + 112 * t) as u64,
    }
}

/// The weight of `close_tip`.
pub open spec fn close_tip_weight(db: RuntimeDbWeight, t: u32) -> Weight {
    Weight {
        ref_time: cap(81_286_488 + 63_273 * t + db.read * 3 + db.write * 3) as u64,
        proof_size: cap(3_956 + 108 * t) as u64,
    }
}

/// The weight of `slash_tip`.
pub open spec fn slash_tip_weight(db: RuntimeDbWeight, _t: u32) -> Weight {
    Weight {
        ref_time: cap(20_632_387 + db.read * 1 + db.write * 2) as u64,
        proof_size: 3_733,
    }
}

impl BasiliskWeight {
    /// The weight of `report_awesome`.
    pub fn report_awesome(db: RuntimeDbWeight, r: u32) -> (w: Weight)
        ensures
            w == report_awesome_weight(db, r),
    {
        Weight::from_parts(40_759_457, 3_468)
            .saturating_add(Weight::from_parts(1_534, 0).saturating_mul(r as u64))
            .saturating_add(db.reads(2))
            .saturating_add(db.writes(2))
    }

    /// The weight of `retract_tip`.
    pub fn retract_tip(db: RuntimeDbWeight) -> (w: Weight)
        ensures
            w == retract_tip_weight(db),
    {
        Weight::from_parts(37_632_000, 3_685)
            .saturating_add(db.reads(1))
            .saturating_add(db.writes(2))
    }

    /// The weight of `tip_new`.
    pub fn tip_new(db: RuntimeDbWeight, r: u32, t: u32) -> (w: Weight)
        ensures
            w == tip_new_weight(db, r, t),
    {
        Weight::from_parts(26_937_982, 3_703)
            .saturating_add(Weight::from_parts(1_790, 0).saturating_mul(r as u64))
            .saturating_add(Weight::from_parts(97_556, 0).saturating_mul(t as u64))
            .saturating_add(db.reads(2))
            .saturating_add(db.writes(2))
            .saturating_add(Weight::from_parts(0, 64).saturating_mul(t as u64))
    }

    /// The weight of `tip`.
    pub fn tip(db: RuntimeDbWeight, t: u32) -> (w: Weight)
        ensures
            w == tip_weight(db, t),
    {
        Weight::from_parts(21_367_368, 3_924)
            .saturating_add(Weight::from_parts(197_604, 0).saturating_mul(t as u64))
            .saturating_add(db.reads(2))
            .saturating_add(db.writes(1))
            .saturating_add(Weight::from_parts(0, 112).saturating_mul(t as u64))
    }

    /// The weight of `close_tip`.
    pub fn close_tip(db: RuntimeDbWeight, t: u32) -> (w: Weight)
        ensures
            w == close_tip_weight(db, t),
    {
        Weight::from_parts(81_286_488, 3_956)
            .saturating_add(Weight::from_parts(63_273, 0).saturating_mul(t as u64))
            .saturating_add(db.reads(3))
            .saturating_add(db.writes(3))
            .saturating_add(Weight::from_parts(0, 108).saturating_mul(t as u64))
    }

    /// The weight of `slash_tip`.
    pub fn slash_tip(db: RuntimeDbWeight, _t: u32) -> (w: Weight)
        ensures
            w == slash_tip_weight(db, _t),
    {
        Weight::from_parts(20_632_387, 3_733)
            .saturating_add(db.reads(1))
            .saturating_add(db.writes(2))
    }
}

/// The weight of `report_awesome` grows with `r`.
pub proof fn lemma_report_awesome_monotone(db: RuntimeDbWeight, r1: u32, r2: u32)
    requires
        r1 <= r2,
    ensures
        report_awesome_weight(db, r1).ref_time <= report_awesome_weight(db, r2).ref_time,
        report_awesome_weight(db, r1).proof_size <= report_awesome_weight(db, r2).proof_size,
{
}

/// The weight of `tip_new` grows with `r`, `t`.
pub proof fn lemma_tip_new_monotone(db: RuntimeDbWeight, r1: u32, r2: u32, t1: u32, t2: u32)
    requires
        r1 <= r2,
        t1 <= t2,
    ensures
        tip_new_weight(db, r1, t1).ref_time <= tip_new_weight(db, r2, t2).ref_time,
        tip_new_weight(db, r1, t1).proof_size <= tip_new_weight(db, r2, t2).proof_size,
{
}

/// The weight of `tip` grows with `t`.
pub proof fn lemma_tip_monotone(db: RuntimeDbWeight, t1: u32, t2: u32)
    requires
        t1 <= t2,
    ensures
        tip_weight(db, t1).ref_time <= tip_weight(db, t2).ref_time,
        tip_weight(db, t1).proof_size <= tip_weight(db, t2).proof_size,
{
}

/// The weight of `close_tip` grows with `t`.
pub proof fn lemma_close_tip_monotone(db: RuntimeDbWeight, t1: u32, t2: u32)
    requires
        t1 <= t2,
    ensures
        close_tip_weight(db, t1).ref_time <= close_tip_weight(db, t2).ref_time,
        close_tip_weight(db, t1).proof_size <= close_tip_weight(db, t2).proof_size,
{
}

} // verus!
