//! Weights of the democracy pallet.
use vstd::prelude::*;

use crate::weights::{cap, saturating_mul_u64, RuntimeDbWeight, Weight};

verus! {

/// The weights of the Basilisk runtime for the democracy pallet.
pub struct BasiliskWeight;

/// The weight of `propose`.
pub open spec fn propose_weight(db: RuntimeDbWeight) -> Weight {
    Weight {
        ref_time: cap(41_490_000 + db.read * 3 + db.write * 3) as u64,
        proof_size: 18_187,
    }
}

/// The weight of `second`.
pub open spec fn second_weight(db: RuntimeDbWeight) -> Weight {
    Weight {
        ref_time: cap(38_191_000 + db.read * 1 + db.write * 1) as u64,
        proof_size: 6_695,
    }
}

/// The weight of `vote_new`.
pub open spec fn vote_new_weight(db: RuntimeDbWeight) -> Weight {
    Weight {
        ref_time: cap(51_543_000 + db.read * 4 + db.write * 3) as u64,
        proof_size: 7_260,
    }
}

/// The weight of `vote_existing`.
pub open spec fn vote_existing_weight(db: RuntimeDbWeight) -> Weight {
    Weight {
        ref_time: cap(54_729_000 + db.read * 4 + db.write * 3) as u64,
        proof_size: 7_260,
    }
}

/// The weight of `emergency_cancel`.
pub open spec fn emergency_cancel_weight(db: RuntimeDbWeight) -> Weight {
    Weight {
        ref_time: cap(27_671_000 + db.read * 3 + db.write * 3) as u64,
        proof_size: 3_666,
    }
}

/// The weight of `blacklist`.
pub open spec fn blacklist_weight(db: RuntimeDbWeight) -> Weight {
    Weight {
        ref_time: cap(101_989_000 + db.read * 8 + db.write * 7) as u64,
        proof_size: 18_187,
    }
}

/// The weight of `external_propose`.
pub open spec fn external_propose_weight(db: RuntimeDbWeight) -> Weight {
    Weight {
        ref_time: cap(13_487_000 + db.read * 2 + db.write * 1) as u64,
        proof_size: 6_703,
    }
}

/// The weight of `external_propose_majority`.
pub open spec fn external_propose_majority_weight(db: RuntimeDbWeight) -> Weight {
    Weight {
        ref_time: cap(4_078_000 + db.write * 1) as u64,
        proof_size: 0,
    }
}

/// The weight of `external_propose_default`.
pub open spec fn external_propose_default_weight(db: RuntimeDbWeight) -> Weight {
    Weight {
        ref_time: cap(4_051_000 + db.write * 1) as u64,
        proof_size: 0,
    }
}

/// The weight of `fast_track`.
pub open spec fn fast_track_weight(db: RuntimeDbWeight) -> Weight {
    Weight {
        ref_time: cap(25_542_000 + db.read * 3 + db.write * 5) as u64,
        proof_size: 3_518,
    }
}

/// The weight of `veto_external`.
pub open spec fn veto_external_weight(db: RuntimeDbWeight) -> Weight {
    Weight {
        ref_time: cap(28_263_000 + db.read * 3 + db.write * 3) as u64,
        proof_size: 6_703,
    }
}

/// The weight of `cancel_proposal`.
pub open spec fn cancel_proposal_weight(db: RuntimeDbWeight) -> Weight {
    Weight {
        ref_time: cap(79_685_000 + db.read * 4 + db.write * 4) as u64,
        proof_size: 18_187,
    }
}

/// The weight of `cancel_referendum`.
pub open spec fn cancel_referendum_weight(db: RuntimeDbWeight) -> Weight {
    Weight {
        ref_time: cap(20_327_000 + db.read * 1 + db.write * 2) as u64,
        proof_size: 3_518,
    }
}

/// The weight of `on_initialize_base`.
pub open spec fn on_initialize_base_weight(db: RuntimeDbWeight, r: u32) -> Weight {
    Weight {
        ref_time: cap(9_014_019 + 3_144_123 * r + db.read * 2 + db.read * (1 * r) + db.write * 1) as u64,
        proof_size: cap(1_489 + 2_676 * r) as u64,
    }
}

/// The weight of `on_initialize_base_with_launch_period`.
pub open spec fn on_initialize_base_with_launch_period_weight(db: RuntimeDbWeight, r: u32) -> Weight {
    Weight {
        ref_time: cap(12_069_608 + 3_148_511 * r + db.read * 5 + db.read * (1 * r) + db.write * 1) as u64,
        proof_size: cap(18_187 + 2_676 * r) as u64,
    }
}

/// The weight of `delegate`.
pub open spec fn delegate_weight(db: RuntimeDbWeight, r: u32) -> Weight {
    Weight {
        ref_time: cap(49_423_414 + 4_086_926 * r + db.read * 5 + db.read * (1 * r) + db.write * 4 + db.write * (1 * r)) as u64,
        proof_size: cap(19_800 + 2_676 * r) as u64,
    }
}

/// The weight of `undelegate`.
pub open spec fn undelegate_weight(db: RuntimeDbWeight, r: u32) -> Weight {
    Weight {
        ref_time: cap(22_246_560 + 4_102_928 * r + db.read * 2 + db.read * (1 * r) + db.write * 2 + db.write * (1 * r)) as u64,
        proof_size: cap(13_530 + 2_676 * r) as u64,
    }
}

/// The weight of `clear_public_proposals`.
pub open spec fn clear_public_proposals_weight(db: RuntimeDbWeight) -> Weight {
    Weight {
        ref_time: cap(4_344_000 + db.write * 1) as u64,
        proof_size: 0,
    }
}

/// The weight of `unlock_remove`.
pub open spec fn unlock_remove_weight(db: RuntimeDbWeight, r: u32) -> Weight {
    Weight {
        ref_time: cap(37_698_736 + 38_245 * r + db.read * 4 + db.write * 3) as u64,
        proof_size: 7_260,
    }
}

/// The weight of `unlock_set`.
pub open spec fn unlock_set_weight(db: RuntimeDbWeight, r: u32) -> Weight {
    Weight {
        ref_time: cap(37_511_365 + 58_087 * r + db.read * 4 + db.write * 3) as u64,
        proof_size: 7_260,
    }
}

/// The weight of `remove_vote`.
pub open spec fn remove_vote_weight(db: RuntimeDbWeight, r: u32) -> Weight {
    Weight {
        ref_time: cap(19_754_419 + 63_835 * r + db.read * 2 + db.write * 2) as u64,
        proof_size: 7_260,
    }
}

/// The weight of `remove_other_vote`.
pub open spec fn remove_other_vote_weight(db: RuntimeDbWeight, r: u32) -> Weight {
    Weight {
        ref_time: cap(19_723_996 + 64_204 * r + db.read * 2 + db.write * 2) as u64,
        proof_size: 7_260,
    }
}

/// The weight of `set_external_metadata`.
pub open spec fn set_external_metadata_weight(db: RuntimeDbWeight) -> Weight {
    Weight {
        ref_time: cap(20_632_000 + db.read * 3 + db.write * 1) as u64,
        proof_size: 3_556,
    }
}

/// The weight of `clear_external_metadata`.
pub open spec fn clear_external_metadata_weight(db: RuntimeDbWeight) -> Weight {
    Weight {
        ref_time: cap(16_292_000 + db.read * 2 + db.write * 1) as u64,
        proof_size: 3_518,
    }
}

/// The weight of `set_proposal_metadata`.
pub open spec fn set_proposal_metadata_weight(db: RuntimeDbWeight) -> Weight {
    Weight {
        ref_time: cap(41_994_000 + db.read * 3 + db.write * 1) as u64,
        proof_size: 18_187,
    }
}

/// The weight of `clear_proposal_metadata`.
pub open spec fn clear_proposal_metadata_weight(db: RuntimeDbWeight) -> Weight {
    Weight {
        ref_time: cap(36_604_000 + db.read * 2 + db.write * 1) as u64,
        proof_size: 18_187,
    }
}

/// The weight of `set_referendum_metadata`.
pub open spec fn set_referendum_metadata_weight(db: RuntimeDbWeight) -> Weight {
    Weight {
        ref_time: cap(18_468_000 + db.read * 2 + db.write * 1) as u64,
        proof_size: 3_556,
    }
}

/// The weight of `clear_referendum_metadata`.
pub open spec fn clear_referendum_metadata_weight(db: RuntimeDbWeight) -> Weight {
    Weight {
        ref_time: cap(18_956_000 + db.read * 2 + db.write * 1) as u64,
        proof_size: 3_666,
    }
}

impl BasiliskWeight {
    /// The weight of `propose`.
    pub fn propose(db: RuntimeDbWeight) -> (w: Weight)
        ensures
            w == propose_weight(db),
    {
        Weight::from_parts(41_490_000, 18_187)
            .saturating_add(db.reads(3))
            .saturating_add(db.writes(3))
    }

    /// The weight of `second`.
    pub fn second(db: RuntimeDbWeight) -> (w: Weight)
        ensures
            w == second_weight(db),
    {
        Weight::from_parts(38_191_000, 6_695)
            .saturating_add(db.reads(1))
            .saturating_add(db.writes(1))
    }

    /// The weight of `vote_new`.
    pub fn vote_new(db: RuntimeDbWeight) -> (w: Weight)
        ensures
            w == vote_new_weight(db),
    {
        Weight::from_parts(51_543_000, 7_260)
            .saturating_add(db.reads(4))
            .saturating_add(db.writes(3))
    }

    /// The weight of `vote_existing`.
    pub fn vote_existing(db: RuntimeDbWeight) -> (w: Weight)
        ensures
            w == vote_existing_weight(db),
    {
        Weight::from_parts(54_729_000, 7_260)
            .saturating_add(db.reads(4))
            .saturating_add(db.writes(3))
    }

    /// The weight of `emergency_cancel`.
    pub fn emergency_cancel(db: RuntimeDbWeight) -> (w: Weight)
        ensures
            w == emergency_cancel_weight(db),
    {
        Weight::from_parts(27_671_000, 3_666)
            .saturating_add(db.reads(3))
            .saturating_add(db.writes(3))
    }

    /// The weight of `blacklist`.
    pub fn blacklist(db: RuntimeDbWeight) -> (w: Weight)
        ensures
            w == blacklist_weight(db),
    {
        Weight::from_parts(101_989_000, 18_187)
            .saturating_add(db.reads(8))
            .saturating_add(db.writes(7))
    }

    /// The weight of `external_propose`.
    pub fn external_propose(db: RuntimeDbWeight) -> (w: Weight)
        ensures
            w == external_propose_weight(db),
    {
        Weight::from_parts(13_487_000, 6_703)
            .saturating_add(db.reads(2))
            .saturating_add(db.writes(1))
    }

    /// The weight of `external_propose_majority`.
    pub fn external_propose_majority(db: RuntimeDbWeight) -> (w: Weight)
        ensures
            w == external_propose_majority_weight(db),
    {
        Weight::from_parts(4_078_000, 0)
            .saturating_add(db.writes(1))
    }

    /// The weight of `external_propose_default`.
    pub fn external_propose_default(db: RuntimeDbWeight) -> (w: Weight)
        ensures
            w == external_propose_default_weight(db),
    {
        Weight::from_parts(4_051_000, 0)
            .saturating_add(db.writes(1))
    }

    /// The weight of `fast_track`.
    pub fn fast_track(db: RuntimeDbWeight) -> (w: Weight)
        ensures
            w == fast_track_weight(db),
    {
        Weight::from_parts(25_542_000, 3_518)
            .saturating_add(db.reads(3))
            .saturating_add(db.writes(5))
    }

    /// The weight of `veto_external`.
    pub fn veto_external(db: RuntimeDbWeight) -> (w: Weight)
        ensures
            w == veto_external_weight(db),
    {
        Weight::from_parts(28_263_000, 6_703)
            .saturating_add(db.reads(3))
            .saturating_add(db.writes(3))
    }

    /// The weight of `cancel_proposal`.
    pub fn cancel_proposal(db: RuntimeDbWeight) -> (w: Weight)
        ensures
            w == cancel_proposal_weight(db),
    {
        Weight::from_parts(79_685_000, 18_187)
            .saturating_add(db.reads(4))
            .saturating_add(db.writes(4))
    }

    /// The weight of `cancel_referendum`.
    pub fn cancel_referendum(db: RuntimeDbWeight) -> (w: Weight)
        ensures
            w == cancel_referendum_weight(db),
    {
        Weight::from_parts(20_327_000, 3_518)
            .saturating_add(db.reads(1))
            .saturating_add(db.writes(2))
    }

    /// The weight of `on_initialize_base`.
    pub fn on_initialize_base(db: RuntimeDbWeight, r: u32) -> (w: Weight)
        ensures
            w == on_initialize_base_weight(db, r),
    {
        Weight::from_parts(9_014_019, 1_489)
            .saturating_add(Weight::from_parts(3_144_123, 0).saturating_mul(r as u64))
            .saturating_add(db.reads(2))
            .saturating_add(db.reads(saturating_mul_u64(1, r as u64)))
            .saturating_add(db.writes(1))
            .saturating_add(Weight::from_parts(0, 2_676).saturating_mul(r as u64))
    }

    /// The weight of `on_initialize_base_with_launch_period`.
    pub fn on_initialize_base_with_launch_period(db: RuntimeDbWeight, r: u32) -> (w: Weight)
        ensures
            w == on_initialize_base_with_launch_period_weight(db, r),
    {
        Weight::from_parts(12_069_608, 18_187)
            .saturating_add(Weight::from_parts(3_148_511, 0).saturating_mul(r as u64))
            .saturating_add(db.reads(5))
            .saturating_add(db.reads(saturating_mul_u64(1, r as u64)))
            .saturating_add(db.writes(1))
            .saturating_add(Weight::from_parts(0, 2_676).saturating_mul(r as u64))
    }

    /// The weight of `delegate`.
    pub fn delegate(db: RuntimeDbWeight, r: u32) -> (w: Weight)
        ensures
            w == delegate_weight(db, r),
    {
        Weight::from_parts(49_423_414, 19_800)
            .saturating_add(Weight::from_parts(4_086_926, 0).saturating_mul(r as u64))
            .saturating_add(db.reads(5))
            .saturating_add(db.reads(saturating_mul_u64(1, r as u64)))
            .saturating_add(db.writes(4))
            .saturating_add(db.writes(saturating_mul_u64(1, r as u64)))
            .saturating_add(Weight::from_parts(0, 2_676).saturating_mul(r as u64))
    }

    /// The weight of `undelegate`.
    pub fn undelegate(db: RuntimeDbWeight, r: u32) -> (w: Weight)
        ensures
            w == undelegate_weight(db, r),
    {
        Weight::from_parts(22_246_560, 13_530)
            .saturating_add(Weight::from_parts(4_102_928, 0).saturating_mul(r as u64))
            .saturating_add(db.reads(2))
            .saturating_add(db.reads(saturating_mul_u64(1, r as u64)))
            .saturating_add(db.writes(2))
            .saturating_add(db.writes(saturating_mul_u64(1, r as u64)))
            .saturating_add(Weight::from_parts(0, 2_676).saturating_mul(r as u64))
    }

    /// The weight of `clear_public_proposals`.
    pub fn clear_public_proposals(db: RuntimeDbWeight) -> (w: Weight)
        ensures
            w == clear_public_proposals_weight(db),
    {
        Weight::from_parts(4_344_000, 0)
            .saturating_add(db.writes(1))
    }

    /// The weight of `unlock_remove`.
    pub fn unlock_remove(db: RuntimeDbWeight, r: u32) -> (w: Weight)
        ensures
            w == unlock_remove_weight(db, r),
    {
        Weight::from_parts(37_698_736, 7_260)
            .saturating_add(Weight::from_parts(38_245, 0).saturating_mul(r as u64))
            .saturating_add(db.reads(4))
            .saturating_add(db.writes(3))
    }

    /// The weight of `unlock_set`.
    pub fn unlock_set(db: RuntimeDbWeight, r: u32) -> (w: Weight)
        ensures
            w == unlock_set_weight(db, r),
    {
        Weight::from_parts(37_511_365, 7_260)
            .saturating_add(Weight::from_parts(58_087, 0).saturating_mul(r as u64))
            .saturating_add(db.reads(4))
            .saturating_add(db.writes(3))
    }

    /// The weight of `remove_vote`.
    pub fn remove_vote(db: RuntimeDbWeight, r: u32) -> (w: Weight)
        ensures
            w == remove_vote_weight(db, r),
    {
        Weight::from_parts(19_754_419, 7_260)
            .saturating_add(Weight::from_parts(63_835, 0).saturating_mul(r as u64))
            .saturating_add(db.reads(2))
            .saturating_add(db.writes(2))
    }

    /// The weight of `remove_other_vote`.
    pub fn remove_other_vote(db: RuntimeDbWeight, r: u32) -> (w: Weight)
        ensures
            w == remove_other_vote_weight(db, r),
    {
        Weight::from_parts(19_723_996, 7_260)
            .saturating_add(Weight::from_parts(64_204, 0).saturating_mul(r as u64))
            .saturating_add(db.reads(2))
            .saturating_add(db.writes(2))
    }

    /// The weight of `set_external_metadata`.
    pub fn set_external_metadata(db: RuntimeDbWeight) -> (w: Weight)
        ensures
            w == set_external_metadata_weight(db),
    {
        Weight::from_parts(20_632_000, 3_556)
            .saturating_add(db.reads(3))
            .saturating_add(db.writes(1))
    }

    /// The weight of `clear_external_metadata`.
    pub fn clear_external_metadata(db: RuntimeDbWeight) -> (w: Weight)
        ensures
            w == clear_external_metadata_weight(db),
    {
        Weight::from_parts(16_292_000, 3_518)
            .saturating_add(db.reads(2))
            .saturating_add(db.writes(1))
    }

    /// The weight of `set_proposal_metadata`.
    pub fn set_proposal_metadata(db: RuntimeDbWeight) -> (w: Weight)
        ensures
            w == set_proposal_metadata_weight(db),
    {
        Weight::from_parts(41_994_000, 18_187)
            .saturating_add(db.reads(3))
            .saturating_add(db.writes(1))
    }

    /// The weight of `clear_proposal_metadata`.
    pub fn clear_proposal_metadata(db: RuntimeDbWeight) -> (w: Weight)
        ensures
            w == clear_proposal_metadata_weight(db),
    {
        Weight::from_parts(36_604_000, 18_187)
            .saturating_add(db.reads(2))
            .saturating_add(db.writes(1))
    }

    /// The weight of `set_referendum_metadata`.
    pub fn set_referendum_metadata(db: RuntimeDbWeight) -> (w: Weight)
        ensures
            w == set_referendum_metadata_weight(db),
    {
        Weight::from_parts(18_468_000, 3_556)
            .saturating_add(db.reads(2))
            .saturating_add(db.writes(1))
    }

    /// The weight of `clear_referendum_metadata`.
    pub fn clear_referendum_metadata(db: RuntimeDbWeight) -> (w: Weight)
        ensures
            w == clear_referendum_metadata_weight(db),
    {
        Weight::from_parts(18_956_000, 3_666)
            .saturating_add(db.reads(2))
            .saturating_add(db.writes(1))
    }
}

/// The weight of `on_initialize_base` grows with `r`.
pub proof fn lemma_on_initialize_base_monotone(db: RuntimeDbWeight, r1: u32, r2: u32)
    requires
        r1 <= r2,
    ensures
        on_initialize_base_weight(db, r1).ref_time <= on_initialize_base_weight(db, r2).ref_time,
        on_initialize_base_weight(db, r1).proof_size <= on_initialize_base_weight(db, r2).proof_size,
{
    assert(db.read * (1 * r1) <= db.read * (1 * r2)) by (nonlinear_arith)
        requires
            r1 <= r2,
            0 <= db.read,
    ;
}

/// The weight of `on_initialize_base_with_launch_period` grows with `r`.
pub proof fn lemma_on_initialize_base_with_launch_period_monotone(db: RuntimeDbWeight, r1: u32, r2: u32)
    requires
        r1 <= r2,
    ensures
        on_initialize_base_with_launch_period_weight(db, r1).ref_time <= on_initialize_base_with_launch_period_weight(db, r2).ref_time,
        on_initialize_base_with_launch_period_weight(db, r1).proof_size <= on_initialize_base_with_launch_period_weight(db, r2).proof_size,
{
    assert(db.read * (1 * r1) <= db.read * (1 * r2)) by (nonlinear_arith)
        requires
            r1 <= r2,
            0 <= db.read,
    ;
}

/// The weight of `delegate` grows with `r`.
pub proof fn lemma_delegate_monotone(db: RuntimeDbWeight, r1: u32, r2: u32)
    requires
        r1 <= r2,
    ensures
        delegate_weight(db, r1).ref_time <= delegate_weight(db, r2).ref_time,
        delegate_weight(db, r1).proof_size <= delegate_weight(db, r2).proof_size,
{
    assert(db.read * (1 * r1) <= db.read * (1 * r2)) by (nonlinear_arith)
        requires
            r1 <= r2,
            0 <= db.read,
    ;
    assert(db.write * (1 * r1) <= db.write * (1 * r2)) by (nonlinear_arith)
        requires
            r1 <= r2,
            0 <= db.write,
    ;
}

/// The weight of `undelegate` grows with `r`.
pub proof fn lemma_undelegate_monotone(db: RuntimeDbWeight, r1: u32, r2: u32)
    requires
        r1 <= r2,
    ensures
        undelegate_weight(db, r1).ref_time <= undelegate_weight(db, r2).ref_time,
        undelegate_weight(db, r1).proof_size <= undelegate_weight(db, r2).proof_size,
{
    assert(db.read * (1 * r1) <= db.read * (1 * r2)) by (nonlinear_arith)
        requires
            r1 <= r2,
            0 <= db.read,
    ;
    assert(db.write * (1 * r1) <= db.write * (1 * r2)) by (nonlinear_arith)
        requires
            r1 <= r2,
            0 <= db.write,
    ;
}

/// The weight of `unlock_remove` grows with `r`.
pub proof fn lemma_unlock_remove_monotone(db: RuntimeDbWeight, r1: u32, r2: u32)
    requires
        r1 <= r2,
    ensures
        unlock_remove_weight(db, r1).ref_time <= unlock_remove_weight(db, r2).ref_time,
        unlock_remove_weight(db, r1).proof_size <= unlock_remove_weight(db, r2).proof_size,
{
}

/// The weight of `unlock_set` grows with `r`.
pub proof fn lemma_unlock_set_monotone(db: RuntimeDbWeight, r1: u32, r2: u32)
    requires
        r1 <= r2,
    ensures
        unlock_set_weight(db, r1).ref_time <= unlock_set_weight(db, r2).ref_time,
        unlock_set_weight(db, r1).proof_size <= unlock_set_weight(db, r2).proof_size,
{
}

/// The weight of `remove_vote` grows with `r`.
pub proof fn lemma_remove_vote_monotone(db: RuntimeDbWeight, r1: u32, r2: u32)
    requires
        r1 <= r2,
    ensures
        remove_vote_weight(db, r1).ref_time <= remove_vote_weight(db, r2).ref_time,
        remove_vote_weight(db, r1).proof_size <= remove_vote_weight(db, r2).proof_size,
{
}

/// The weight of `remove_other_vote` grows with `r`.
pub proof fn lemma_remove_other_vote_monotone(db: RuntimeDbWeight, r1: u32, r2: u32)
    requires
        r1 <= r2,
    ensures
        remove_other_vote_weight(db, r1).ref_time <= remove_other_vote_weight(db, r2).ref_time,
        remove_other_vote_weight(db, r1).proof_size <= remove_other_vote_weight(db, r2).proof_size,
{
}

} // verus!
