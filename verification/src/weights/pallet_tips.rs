//! Weights of the tips pallet.
use vstd::prelude::*;

use crate::weights::{cap, saturating_mul_u64, RuntimeDbWeight, Weight};

verus! {

/// The weights of the Basilisk runtime for the tips pallet.
pub struct BasiliskWeight;

/// The weight of `report_awesome`.
pub open spec fn report_awesome_weight(db: RuntimeDbWeight, r: u32) -> Weight {
    Weight {
        ref_time: cap(31_696_561 + 1_531 * r + db.read * 2 + db.write * 2) as u64,
        proof_size: 3_468,
    }
}

/// The weight of `retract_tip`.
pub open spec fn retract_tip_weight(db: RuntimeDbWeight) -> Weight {
    Weight {
        ref_time: cap(29_715_000 + db.read * 1 + db.write * 2) as u64,
        proof_size: 3_685,
    }
}

/// The weight of `tip_new`.
pub open spec fn tip_new_weight(db: RuntimeDbWeight, r: u32, t: u32) -> Weight {
    Weight {
        ref_time: cap(21_144_909 + 1_578 * r + 35_536 * t + db.read * 2 + db.write * 2) as u64,
        proof_size: cap(3_703 + 64 * t) as u64,
    }
}

/// The weight of `tip`.
pub open spec fn tip_weight(db: RuntimeDbWeight, t: u32) -> Weight {
    Weight {
        ref_time: cap(17_558_205 + 139_110 * t + db.read * 2 + db.write * 1) as u64,
        proof_size: cap(3_924 + 112 * t) as u64,
    }
}

/// The weight of `close_tip`.
pub open spec fn close_tip_weight(db: RuntimeDbWeight, t: u32) -> Weight {
    Weight {
        ref_time: cap(63_625_920 + 97_662 * t + db.read * 3 + db.write * 3) as u64,
        proof_size: cap(3_956 + 107 * t) as u64,
    }
}

/// The weight of `slash_tip`.
pub open spec fn slash_tip_weight(db: RuntimeDbWeight, t: u32) -> Weight {
    Weight {
        ref_time: cap(15_836_324 + 5_081 * t + db.read * 1 + db.write * 2) as u64,
        proof_size: 3_733,
    }
}

impl BasiliskWeight {
    /// The weight of `report_awesome`.
    pub fn report_awesome(db: RuntimeDbWeight, r: u32) -> (w: Weight)
        ensures
            w == report_awesome_weight(db, r),
    {
        Weight::from_parts(31_696_561, 3_468)
            .saturating_add(Weight::from_parts(1_531, 0).saturating_mul(r as u64))
            .saturating_add(db.reads(2))
            .saturating_add(db.writes(2))
    }

    /// The weight of `retract_tip`.
    pub fn retract_tip(db: RuntimeDbWeight) -> (w: Weight)
        ensures
            w == retract_tip_weight(db),
    {
        Weight::from_parts(29_715_000, 3_685)
            .saturating_add(db.reads(1))
            .saturating_add(db.writes(2))
    }

    /// The weight of `tip_new`.
    pub fn tip_new(db: RuntimeDbWeight, r: u32, t: u32) -> (w: Weight)
        ensures
            w == tip_new_weight(db, r, t),
    {
        Weight::from_parts(21_144_909, 3_703)
            .saturating_add(Weight::from_parts(1_578, 0).saturating_mul(r as u64))
            .saturating_add(Weight::from_parts(35_536, 0).saturating_mul(t as u64))
            .saturating_add(db.reads(2))
            .saturating_add(db.writes(2))
            .saturating_add(Weight::from_parts(0, 64).saturating_mul(t as u64))
    }

    /// The weight of `tip`.
    pub fn tip(db: RuntimeDbWeight, t: u32) -> (w: Weight)
        ensures
            w == tip_weight(db, t),
    {
        Weight::from_parts(17_558_205, 3_924)
            .saturating_add(Weight::from_parts(139_110, 0).saturating_mul(t as u64))
            .saturating_add(db.reads(2))
            .saturating_add(db.writes(1))
            .saturating_add(Weight::from_parts(0, 112).saturating_mul(t as u64))
    }

    /// The weight of `close_tip`.
    pub fn close_tip(db: RuntimeDbWeight, t: u32) -> (w: Weight)
        ensures
            w == close_tip_weight(db, t),
    {
        Weight::from_parts(63_625_920, 3_956)
            .saturating_add(Weight::from_parts(97_662, 0).saturating_mul(t as u64))
            .saturating_add(db.reads(3))
            .saturating_add(db.writes(3))
            .saturating_add(Weight::from_parts(0, 107).saturating_mul(t as u64))
    }

    /// The weight of `slash_tip`.
    pub fn slash_tip(db: RuntimeDbWeight, t: u32) -> (w: Weight)
        ensures
            w == slash_tip_weight(db, t),
    {
        Weight::from_parts(15_836_324, 3_733)
            .saturating_add(Weight::from_parts(5_081, 0).saturating_mul(t as u64))
            .saturating_add(db.reads(1))
            .saturating_add(db.writes(2))
    }
}

/// The weight of `report_awesome` grows with `r`.
pub proof fn lemma_report_awesome_monotone(db: RuntimeDbWeight, r1: u32, r2: u32)
    requires
        r1 <= r2,
    ensures
        report_awesome_weight(db, r1).ref_time <= report_awesome_weight(db, r2).ref_time,
        report_awesome_weight(db, r1).proof_size <= report_awesome_weight(db, r2).proof_size,
{
}

/// The weight of `tip_new` grows with `r`, `t`.
pub proof fn lemma_tip_new_monotone(db: RuntimeDbWeight, r1: u32, r2: u32, t1: u32, t2: u32)
    requires
        r1 <= r2,
        t1 <= t2,
    ensures
        tip_new_weight(db, r1, t1).ref_time <= tip_new_weight(db, r2, t2).ref_time,
        tip_new_weight(db, r1, t1).proof_size <= tip_new_weight(db, r2, t2).proof_size,
{
}

/// The weight of `tip` grows with `t`.
pub proof fn lemma_tip_monotone(db: RuntimeDbWeight, t1: u32, t2: u32)
    requires
        t1 <= t2,
    ensures
        tip_weight(db, t1).ref_time <= tip_weight(db, t2).ref_time,
        tip_weight(db, t1).proof_size <= tip_weight(db, t2).proof_size,
{
}

/// The weight of `close_tip` grows with `t`.
pub proof fn lemma_close_tip_monotone(db: RuntimeDbWeight, t1: u32, t2: u32)
    requires
        t1 <= t2,
    ensures
        close_tip_weight(db, t1).ref_time <= close_tip_weight(db, t2).ref_time,
        close_tip_weight(db, t1).proof_size <= close_tip_weight(db, t2).proof_size,
{
}

/// The weight of `slash_tip` grows with `t`.
pub proof fn lemma_slash_tip_monotone(db: RuntimeDbWeight, t1: u32, t2: u32)
    requires
        t1 <= t2,
    ensures
        slash_tip_weight(db, t1).ref_time <= slash_tip_weight(db, t2).ref_time,
        slash_tip_weight(db, t1).proof_size <= slash_tip_weight(db, t2).proof_size,
{
}

} // verus!
