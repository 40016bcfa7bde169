//! Weights of the democracy pallet, as benchmarked in 2022.
use vstd::prelude::*;

use crate::weights::{cap, saturating_mul_u64, RuntimeDbWeight, Weight};

verus! {

/// The weights of the Basilisk runtime for the democracy pallet, as benchmarked in 2022.
pub struct BasiliskWeight;

/// The weight of `propose`.
pub open spec fn propose_weight(db: RuntimeDbWeight) -> Weight {
    Weight {
        ref_time: cap(60_700_000 + db.read * 3 + db.write * 3) as u64,
        proof_size: 0,
    }
}

/// The weight of `second`.
pub open spec fn second_weight(db: RuntimeDbWeight, s: u32) -> Weight {
    Weight {
        ref_time: cap(34_526_000 + 170_000 * s + db.read * 1 + db.write * 1) as u64,
        proof_size: 0,
    }
}

/// The weight of `vote_new`.
pub open spec fn vote_new_weight(db: RuntimeDbWeight, r: u32) -> Weight {
    Weight {
        ref_time: cap(36_917_000 + 202_000 * r + db.read * 3 + db.write * 3) as u64,
        proof_size: 0,
    }
}

/// The weight of `vote_existing`.
pub open spec fn vote_existing_weight(db: RuntimeDbWeight, r: u32) -> Weight {
    Weight {
        ref_time: cap(37_413_000 + 192_000 * r + db.read * 3 + db.write * 3) as u64,
        proof_size: 0,
    }
}

/// The weight of `emergency_cancel`.
pub open spec fn emergency_cancel_weight(db: RuntimeDbWeight) -> Weight {
    Weight {
        ref_time: cap(22_325_000 + db.read * 2 + db.write * 2) as u64,
        proof_size: 0,
    }
}

/// The weight of `blacklist`.
pub open spec fn blacklist_weight(db: RuntimeDbWeight, p: u32) -> Weight {
    Weight {
        ref_time: cap(56_444_000 + 753_000 * p + db.read * 4 + db.write * 5) as u64,
        proof_size: 0,
    }
}

/// The weight of `external_propose`.
pub open spec fn external_propose_weight(db: RuntimeDbWeight, v: u32) -> Weight {
    Weight {
        ref_time: cap(11_348_000 + 76_000 * v + db.read * 2 + db.write * 1) as u64,
        proof_size: 0,
    }
}

/// The weight of `external_propose_majority`.
pub open spec fn external_propose_majority_weight(db: RuntimeDbWeight) -> Weight {
    Weight {
        ref_time: cap(2_641_000 + db.write * 1) as u64,
        proof_size: 0,
    }
}

/// The weight of `external_propose_default`.
pub open spec fn external_propose_default_weight(db: RuntimeDbWeight) -> Weight {
    Weight {
        ref_time: cap(2_617_000 + db.write * 1) as u64,
        proof_size: 0,
    }
}

/// The weight of `fast_track`.
pub open spec fn fast_track_weight(db: RuntimeDbWeight) -> Weight {
    Weight {
        ref_time: cap(24_448_000 + db.read * 2 + db.write * 3) as u64,
        proof_size: 0,
    }
}

/// The weight of `veto_external`.
pub open spec fn veto_external_weight(db: RuntimeDbWeight, v: u32) -> Weight {
    Weight {
        ref_time: cap(24_754_000 + 98_000 * v + db.read * 2 + db.write * 2) as u64,
        proof_size: 0,
    }
}

/// The weight of `cancel_proposal`.
pub open spec fn cancel_proposal_weight(db: RuntimeDbWeight, p: u32) -> Weight {
    Weight {
        ref_time: cap(57_781_000 + 411_000 * p + db.read * 4 + db.write * 4) as u64,
        proof_size: 0,
    }
}

/// The weight of `cancel_referendum`.
pub open spec fn cancel_referendum_weight(db: RuntimeDbWeight) -> Weight {
    Weight {
        ref_time: cap(14_687_000 + db.write * 1) as u64,
        proof_size: 0,
    }
}

/// The weight of `cancel_queued`.
pub open spec fn cancel_queued_weight(db: RuntimeDbWeight, r: u32) -> Weight {
    Weight {
        ref_time: cap(26_100_000 + 1_471_000 * r + db.read * 2 + db.write * 2) as u64,
        proof_size: 0,
    }
}

/// The weight of `on_initialize_base`.
pub open spec fn on_initialize_base_weight(db: RuntimeDbWeight, r: u32) -> Weight {
    Weight {
        ref_time: cap(4_859_000 + 4_231_000 * r + db.read * 2 + db.read * (1 * r) + db.write * 1) as u64,
        proof_size: 0,
    }
}

/// The weight of `on_initialize_base_with_launch_period`.
pub open spec fn on_initialize_base_with_launch_period_weight(db: RuntimeDbWeight, r: u32) -> Weight {
    Weight {
        ref_time: cap(12_029_000 + 4_186_000 * r + db.read * 5 + db.read * (1 * r) + db.write * 1) as u64,
        proof_size: 0,
    }
}

/// The weight of `delegate`.
pub open spec fn delegate_weight(db: RuntimeDbWeight, r: u32) -> Weight {
    Weight {
        ref_time: cap(49_410_000 + 5_682_000 * r + db.read * 4 + db.read * (1 * r) + db.write * 4 + db.write * (1 * r)) as u64,
        proof_size: 0,
    }
}

/// The weight of `undelegate`.
pub open spec fn undelegate_weight(db: RuntimeDbWeight, r: u32) -> Weight {
    Weight {
        ref_time: cap(24_580_000 + 5_621_000 * r + db.read * 2 + db.read * (1 * r) + db.write * 2 + db.write * (1 * r)) as u64,
        proof_size: 0,
    }
}

/// The weight of `clear_public_proposals`.
pub open spec fn clear_public_proposals_weight(db: RuntimeDbWeight) -> Weight {
    Weight {
        ref_time: cap(2_827_000 + db.write * 1) as u64,
        proof_size: 0,
    }
}

/// The weight of `note_preimage`.
pub open spec fn note_preimage_weight(db: RuntimeDbWeight, b: u32) -> Weight {
    Weight {
        ref_time: cap(29_421_000 + 3_000 * b + db.read * 1 + db.write * 1) as u64,
        proof_size: 0,
    }
}

/// The weight of `note_imminent_preimage`.
pub open spec fn note_imminent_preimage_weight(db: RuntimeDbWeight, b: u32) -> Weight {
    Weight {
        ref_time: cap(24_980_000 + 2_000 * b + db.read * 1 + db.write * 1) as u64,
        proof_size: 0,
    }
}

/// The weight of `reap_preimage`.
pub open spec fn reap_preimage_weight(db: RuntimeDbWeight, b: u32) -> Weight {
    Weight {
        ref_time: cap(31_000_000 + 2_000 * b + db.read * 1 + db.write * 1) as u64,
        proof_size: 0,
    }
}

/// The weight of `unlock_remove`.
pub open spec fn unlock_remove_weight(db: RuntimeDbWeight, r: u32) -> Weight {
    Weight {
        ref_time: cap(32_637_000 + 103_000 * r + db.read * 3 + db.write * 3) as u64,
        proof_size: 0,
    }
}

/// The weight of `unlock_set`.
pub open spec fn unlock_set_weight(db: RuntimeDbWeight, r: u32) -> Weight {
    Weight {
        ref_time: cap(31_896_000 + 139_000 * r + db.read * 3 + db.write * 3) as u64,
        proof_size: 0,
    }
}

/// The weight of `remove_vote`.
pub open spec fn remove_vote_weight(db: RuntimeDbWeight, r: u32) -> Weight {
    Weight {
        ref_time: cap(16_623_000 + 171_000 * r + db.read * 2 + db.write * 2) as u64,
        proof_size: 0,
    }
}

/// The weight of `remove_other_vote`.
pub open spec fn remove_other_vote_weight(db: RuntimeDbWeight, r: u32) -> Weight {
    Weight {
        ref_time: cap(16_688_000 + 163_000 * r + db.read * 2 + db.write * 2) as u64,
        proof_size: 0,
    }
}

impl BasiliskWeight {
    /// The weight of `propose`.
    pub fn propose(db: RuntimeDbWeight) -> (w: Weight)
        ensures
            w == propose_weight(db),
    {
        Weight::from_ref_time(60_700_000)
            .saturating_add(db.reads(3))
            .saturating_add(db.writes(3))
    }

    /// The weight of `second`.
    pub fn second(db: RuntimeDbWeight, s: u32) -> (w: Weight)
        ensures
            w == second_weight(db, s),
    {
        Weight::from_ref_time(34_526_000)
            .saturating_add(Weight::from_ref_time(170_000).saturating_mul(s as u64))
            .saturating_add(db.reads(1))
            .saturating_add(db.writes(1))
    }

    /// The weight of `vote_new`.
    pub fn vote_new(db: RuntimeDbWeight, r: u32) -> (w: Weight)
        ensures
            w == vote_new_weight(db, r),
    {
        Weight::from_ref_time(36_917_000)
            .saturating_add(Weight::from_ref_time(202_000).saturating_mul(r as u64))
            .saturating_add(db.reads(3))
            .saturating_add(db.writes(3))
    }

    /// The weight of `vote_existing`.
    pub fn vote_existing(db: RuntimeDbWeight, r: u32) -> (w: Weight)
        ensures
            w == vote_existing_weight(db, r),
    {
        Weight::from_ref_time(37_413_000)
            .saturating_add(Weight::from_ref_time(192_000).saturating_mul(r as u64))
            .saturating_add(db.reads(3))
            .saturating_add(db.writes(3))
    }

    /// The weight of `emergency_cancel`.
    pub fn emergency_cancel(db: RuntimeDbWeight) -> (w: Weight)
        ensures
            w == emergency_cancel_weight(db),
    {
        Weight::from_ref_time(22_325_000)
            .saturating_add(db.reads(2))
            .saturating_add(db.writes(2))
    }

    /// The weight of `blacklist`.
    pub fn blacklist(db: RuntimeDbWeight, p: u32) -> (w: Weight)
        ensures
            w == blacklist_weight(db, p),
    {
        Weight::from_ref_time(56_444_000)
            .saturating_add(Weight::from_ref_time(753_000).saturating_mul(p as u64))
            .saturating_add(db.reads(4))
            .saturating_add(db.writes(5))
    }

    /// The weight of `external_propose`.
    pub fn external_propose(db: RuntimeDbWeight, v: u32) -> (w: Weight)
        ensures
            w == external_propose_weight(db, v),
    {
        Weight::from_ref_time(11_348_000)
            .saturating_add(Weight::from_ref_time(76_000).saturating_mul(v as u64))
            .saturating_add(db.reads(2))
            .saturating_add(db.writes(1))
    }

    /// The weight of `external_propose_majority`.
    pub fn external_propose_majority(db: RuntimeDbWeight) -> (w: Weight)
        ensures
            w == external_propose_majority_weight(db),
    {
        Weight::from_ref_time(2_641_000)
            .saturating_add(db.writes(1))
    }

    /// The weight of `external_propose_default`.
    pub fn external_propose_default(db: RuntimeDbWeight) -> (w: Weight)
        ensures
            w == external_propose_default_weight(db),
    {
        Weight::from_ref_time(2_617_000)
            .saturating_add(db.writes(1))
    }

    /// The weight of `fast_track`.
    pub fn fast_track(db: RuntimeDbWeight) -> (w: Weight)
        ensures
            w == fast_track_weight(db),
    {
        Weight::from_ref_time(24_448_000)
            .saturating_add(db.reads(2))
            .saturating_add(db.writes(3))
    }

    /// The weight of `veto_external`.
    pub fn veto_external(db: RuntimeDbWeight, v: u32) -> (w: Weight)
        ensures
            w == veto_external_weight(db, v),
    {
        Weight::from_ref_time(24_754_000)
            .saturating_add(Weight::from_ref_time(98_000).saturating_mul(v as u64))
            .saturating_add(db.reads(2))
            .saturating_add(db.writes(2))
    }

    /// The weight of `cancel_proposal`.
    pub fn cancel_proposal(db: RuntimeDbWeight, p: u32) -> (w: Weight)
        ensures
            w == cancel_proposal_weight(db, p),
    {
        Weight::from_ref_time(57_781_000)
            .saturating_add(Weight::from_ref_time(411_000).saturating_mul(p as u64))
            .saturating_add(db.reads(4))
            .saturating_add(db.writes(4))
    }

    /// The weight of `cancel_referendum`.
    pub fn cancel_referendum(db: RuntimeDbWeight) -> (w: Weight)
        ensures
            w == cancel_referendum_weight(db),
    {
        Weight::from_ref_time(14_687_000)
            .saturating_add(db.writes(1))
    }

    /// The weight of `cancel_queued`.
    pub fn cancel_queued(db: RuntimeDbWeight, r: u32) -> (w: Weight)
        ensures
            w == cancel_queued_weight(db, r),
    {
        Weight::from_ref_time(26_100_000)
            .saturating_add(Weight::from_ref_time(1_471_000).saturating_mul(r as u64))
            .saturating_add(db.reads(2))
            .saturating_add(db.writes(2))
    }

    /// The weight of `on_initialize_base`.
    pub fn on_initialize_base(db: RuntimeDbWeight, r: u32) -> (w: Weight)
        ensures
            w == on_initialize_base_weight(db, r),
    {
        Weight::from_ref_time(4_859_000)
            .saturating_add(Weight::from_ref_time(4_231_000).saturating_mul(r as u64))
            .saturating_add(db.reads(2))
            .saturating_add(db.reads(saturating_mul_u64(1, r as u64)))
            .saturating_add(db.writes(1))
    }

    /// The weight of `on_initialize_base_with_launch_period`.
    pub fn on_initialize_base_with_launch_period(db: RuntimeDbWeight, r: u32) -> (w: Weight)
        ensures
            w == on_initialize_base_with_launch_period_weight(db, r),
    {
        Weight::from_ref_time(12_029_000)
            .saturating_add(Weight::from_ref_time(4_186_000).saturating_mul(r as u64))
            .saturating_add(db.reads(5))
            .saturating_add(db.reads(saturating_mul_u64(1, r as u64)))
            .saturating_add(db.writes(1))
    }

    /// The weight of `delegate`.
    pub fn delegate(db: RuntimeDbWeight, r: u32) -> (w: Weight)
        ensures
            w == delegate_weight(db, r),
    {
        Weight::from_ref_time(49_410_000)
            .saturating_add(Weight::from_ref_time(5_682_000).saturating_mul(r as u64))
            .saturating_add(db.reads(4))
            .saturating_add(db.reads(saturating_mul_u64(1, r as u64)))
            .saturating_add(db.writes(4))
            .saturating_add(db.writes(saturating_mul_u64(1, r as u64)))
    }

    /// The weight of `undelegate`.
    pub fn undelegate(db: RuntimeDbWeight, r: u32) -> (w: Weight)
        ensures
            w == undelegate_weight(db, r),
    {
        Weight::from_ref_time(24_580_000)
            .saturating_add(Weight::from_ref_time(5_621_000).saturating_mul(r as u64))
            .saturating_add(db.reads(2))
            .saturating_add(db.reads(saturating_mul_u64(1, r as u64)))
            .saturating_add(db.writes(2))
            .saturating_add(db.writes(saturating_mul_u64(1, r as u64)))
    }

    /// The weight of `clear_public_proposals`.
    pub fn clear_public_proposals(db: RuntimeDbWeight) -> (w: Weight)
        ensures
            w == clear_public_proposals_weight(db),
    {
        Weight::from_ref_time(2_827_000)
            .saturating_add(db.writes(1))
    }

    /// The weight of `note_preimage`.
    pub fn note_preimage(db: RuntimeDbWeight, b: u32) -> (w: Weight)
        ensures
            w == note_preimage_weight(db, b),
    {
        Weight::from_ref_time(29_421_000)
            .saturating_add(Weight::from_ref_time(3_000).saturating_mul(b as u64))
            .saturating_add(db.reads(1))
            .saturating_add(db.writes(1))
    }

    /// The weight of `note_imminent_preimage`.
    pub fn note_imminent_preimage(db: RuntimeDbWeight, b: u32) -> (w: Weight)
        ensures
            w == note_imminent_preimage_weight(db, b),
    {
        Weight::from_ref_time(24_980_000)
            .saturating_add(Weight::from_ref_time(2_000).saturating_mul(b as u64))
            .saturating_add(db.reads(1))
            .saturating_add(db.writes(1))
    }

    /// The weight of `reap_preimage`.
    pub fn reap_preimage(db: RuntimeDbWeight, b: u32) -> (w: Weight)
        ensures
            w == reap_preimage_weight(db, b),
    {
        Weight::from_ref_time(31_000_000)
            .saturating_add(Weight::from_ref_time(2_000).saturating_mul(b as u64))
            .saturating_add(db.reads(1))
            .saturating_add(db.writes(1))
    }

    /// The weight of `unlock_remove`.
    pub fn unlock_remove(db: RuntimeDbWeight, r: u32) -> (w: Weight)
        ensures
            w == unlock_remove_weight(db, r),
    {
        Weight::from_ref_time(32_637_000)
            .saturating_add(Weight::from_ref_time(103_000).saturating_mul(r as u64))
            .saturating_add(db.reads(3))
            .saturating_add(db.writes(3))
    }

    /// The weight of `unlock_set`.
    pub fn unlock_set(db: RuntimeDbWeight, r: u32) -> (w: Weight)
        ensures
            w == unlock_set_weight(db, r),
    {
        Weight::from_ref_time(31_896_000)
            .saturating_add(Weight::from_ref_time(139_000).saturating_mul(r as u64))
            .saturating_add(db.reads(3))
            .saturating_add(db.writes(3))
    }

    /// The weight of `remove_vote`.
    pub fn remove_vote(db: RuntimeDbWeight, r: u32) -> (w: Weight)
        ensures
            w == remove_vote_weight(db, r),
    {
        Weight::from_ref_time(16_623_000)
            .saturating_add(Weight::from_ref_time(171_000).saturating_mul(r as u64))
            .saturating_add(db.reads(2))
            .saturating_add(db.writes(2))
    }

    /// The weight of `remove_other_vote`.
    pub fn remove_other_vote(db: RuntimeDbWeight, r: u32) -> (w: Weight)
        ensures
            w == remove_other_vote_weight(db, r),
    {
        Weight::from_ref_time(16_688_000)
            .saturating_add(Weight::from_ref_time(163_000).saturating_mul(r as u64))
            .saturating_add(db.reads(2))
            .saturating_add(db.writes(2))
    }
}

/// The weight of `second` grows with `s`.
pub proof fn lemma_second_monotone(db: RuntimeDbWeight, s1: u32, s2: u32)
    requires
        s1 <= s2,
    ensures
        second_weight(db, s1).ref_time <= second_weight(db, s2).ref_time,
        second_weight(db, s1).proof_size <= second_weight(db, s2).proof_size,
{
}

/// The weight of `vote_new` grows with `r`.
pub proof fn lemma_vote_new_monotone(db: RuntimeDbWeight, r1: u32, r2: u32)
    requires
        r1 <= r2,
    ensures
        vote_new_weight(db, r1).ref_time <= vote_new_weight(db, r2).ref_time,
        vote_new_weight(db, r1).proof_size <= vote_new_weight(db, r2).proof_size,
{
}

/// The weight of `vote_existing` grows with `r`.
pub proof fn lemma_vote_existing_monotone(db: RuntimeDbWeight, r1: u32, r2: u32)
    requires
        r1 <= r2,
    ensures
        vote_existing_weight(db, r1).ref_time <= vote_existing_weight(db, r2).ref_time,
        vote_existing_weight(db, r1).proof_size <= vote_existing_weight(db, r2).proof_size,
{
}

/// The weight of `blacklist` grows with `p`.
pub proof fn lemma_blacklist_monotone(db: RuntimeDbWeight, p1: u32, p2: u32)
    requires
        p1 <= p2,
    ensures
        blacklist_weight(db, p1).ref_time <= blacklist_weight(db, p2).ref_time,
        blacklist_weight(db, p1).proof_size <= blacklist_weight(db, p2).proof_size,
{
}

/// The weight of `external_propose` grows with `v`.
pub proof fn lemma_external_propose_monotone(db: RuntimeDbWeight, v1: u32, v2: u32)
    requires
        v1 <= v2,
    ensures
        external_propose_weight(db, v1).ref_time <= external_propose_weight(db, v2).ref_time,
        external_propose_weight(db, v1).proof_size <= external_propose_weight(db, v2).proof_size,
{
}

/// The weight of `veto_external` grows with `v`.
pub proof fn lemma_veto_external_monotone(db: RuntimeDbWeight, v1: u32, v2: u32)
    requires
        v1 <= v2,
    ensures
        veto_external_weight(db, v1).ref_time <= veto_external_weight(db, v2).ref_time,
        veto_external_weight(db, v1).proof_size <= veto_external_weight(db, v2).proof_size,
{
}

/// The weight of `cancel_proposal` grows with `p`.
pub proof fn lemma_cancel_proposal_monotone(db: RuntimeDbWeight, p1: u32, p2: u32)
    requires
        p1 <= p2,
    ensures
        cancel_proposal_weight(db, p1).ref_time <= cancel_proposal_weight(db, p2).ref_time,
        cancel_proposal_weight(db, p1).proof_size <= cancel_proposal_weight(db, p2).proof_size,
{
}

/// The weight of `cancel_queued` grows with `r`.
pub proof fn lemma_cancel_queued_monotone(db: RuntimeDbWeight, r1: u32, r2: u32)
    requires
        r1 <= r2,
    ensures
        cancel_queued_weight(db, r1).ref_time <= cancel_queued_weight(db, r2).ref_time,
        cancel_queued_weight(db, r1).proof_size <= cancel_queued_weight(db, r2).proof_size,
{
}

/// The weight of `on_initialize_base` grows with `r`.
pub proof fn lemma_on_initialize_base_monotone(db: RuntimeDbWeight, r1: u32, r2: u32)
    requires
        r1 <= r2,
    ensures
        on_initialize_base_weight(db, r1).ref_time <= on_initialize_base_weight(db, r2).ref_time,
        on_initialize_base_weight(db, r1).proof_size <= on_initialize_base_weight(db, r2).proof_size,
{
    assert(db.read * (1 * r1) <= db.read * (1 * r2)) by (nonlinear_arith)
        requires
            r1 <= r2,
            0 <= db.read,
    ;
}

/// The weight of `on_initialize_base_with_launch_period` grows with `r`.
pub proof fn lemma_on_initialize_base_with_launch_period_monotone(db: RuntimeDbWeight, r1: u32, r2: u32)
    requires
        r1 <= r2,
    ensures
        on_initialize_base_with_launch_period_weight(db, r1).ref_time <= on_initialize_base_with_launch_period_weight(db, r2).ref_time,
        on_initialize_base_with_launch_period_weight(db, r1).proof_size <= on_initialize_base_with_launch_period_weight(db, r2).proof_size,
{
    assert(db.read * (1 * r1) <= db.read * (1 * r2)) by (nonlinear_arith)
        requires
            r1 <= r2,
            0 <= db.read,
    ;
}

/// The weight of `delegate` grows with `r`.
pub proof fn lemma_delegate_monotone(db: RuntimeDbWeight, r1: u32, r2: u32)
    requires
        r1 <= r2,
    ensures
        delegate_weight(db, r1).ref_time <= delegate_weight(db, r2).ref_time,
        delegate_weight(db, r1).proof_size <= delegate_weight(db, r2).proof_size,
{
    assert(db.read * (1 * r1) <= db.read * (1 * r2)) by (nonlinear_arith)
        requires
            r1 <= r2,
            0 <= db.read,
    ;
    assert(db.write * (1 * r1) <= db.write * (1 * r2)) by (nonlinear_arith)
        requires
            r1 <= r2,
            0 <= db.write,
    ;
}

/// The weight of `undelegate` grows with `r`.
pub proof fn lemma_undelegate_monotone(db: RuntimeDbWeight, r1: u32, r2: u32)
    requires
        r1 <= r2,
    ensures
        undelegate_weight(db, r1).ref_time <= undelegate_weight(db, r2).ref_time,
        undelegate_weight(db, r1).proof_size <= undelegate_weight(db, r2).proof_size,
{
    assert(db.read * (1 * r1) <= db.read * (1 * r2)) by (nonlinear_arith)
        requires
            r1 <= r2,
            0 <= db.read,
    ;
    assert(db.write * (1 * r1) <= db.write * (1 * r2)) by (nonlinear_arith)
        requires
            r1 <= r2,
            0 <= db.write,
    ;
}

/// The weight of `note_preimage` grows with `b`.
pub proof fn lemma_note_preimage_monotone(db: RuntimeDbWeight, b1: u32, b2: u32)
    requires
        b1 <= b2,
    ensures
        note_preimage_weight(db, b1).ref_time <= note_preimage_weight(db, b2).ref_time,
        note_preimage_weight(db, b1).proof_size <= note_preimage_weight(db, b2).proof_size,
{
}

/// The weight of `note_imminent_preimage` grows with `b`.
pub proof fn lemma_note_imminent_preimage_monotone(db: RuntimeDbWeight, b1: u32, b2: u32)
    requires
        b1 <= b2,
    ensures
        note_imminent_preimage_weight(db, b1).ref_time <= note_imminent_preimage_weight(db, b2).ref_time,
        note_imminent_preimage_weight(db, b1).proof_size <= note_imminent_preimage_weight(db, b2).proof_size,
{
}

/// The weight of `reap_preimage` grows with `b`.
pub proof fn lemma_reap_preimage_monotone(db: RuntimeDbWeight, b1: u32, b2: u32)
    requires
        b1 <= b2,
    ensures
        reap_preimage_weight(db, b1).ref_time <= reap_preimage_weight(db, b2).ref_time,
        reap_preimage_weight(db, b1).proof_size <= reap_preimage_weight(db, b2).proof_size,
{
}

/// The weight of `unlock_remove` grows with `r`.
pub proof fn lemma_unlock_remove_monotone(db: RuntimeDbWeight, r1: u32, r2: u32)
    requires
        r1 <= r2,
    ensures
        unlock_remove_weight(db, r1).ref_time <= unlock_remove_weight(db, r2).ref_time,
        unlock_remove_weight(db, r1).proof_size <= unlock_remove_weight(db, r2).proof_size,
{
}

/// The weight of `unlock_set` grows with `r`.
pub proof fn lemma_unlock_set_monotone(db: RuntimeDbWeight, r1: u32, r2: u32)
    requires
        r1 <= r2,
    ensures
        unlock_set_weight(db, r1).ref_time <= unlock_set_weight(db, r2).ref_time,
        unlock_set_weight(db, r1).proof_size <= unlock_set_weight(db, r2).proof_size,
{
}

/// The weight of `remove_vote` grows with `r`.
pub proof fn lemma_remove_vote_monotone(db: RuntimeDbWeight, r1: u32, r2: u32)
    requires
        r1 <= r2,
    ensures
        remove_vote_weight(db, r1).ref_time <= remove_vote_weight(db, r2).ref_time,
        remove_vote_weight(db, r1).proof_size <= remove_vote_weight(db, r2).proof_size,
{
}

/// The weight of `remove_other_vote` grows with `r`.
pub proof fn lemma_remove_other_vote_monotone(db: RuntimeDbWeight, r1: u32, r2: u32)
    requires
        r1 <= r2,
    ensures
        remove_other_vote_weight(db, r1).ref_time <= remove_other_vote_weight(db, r2).ref_time,
        remove_other_vote_weight(db, r1).proof_size <= remove_other_vote_weight(db, r2).proof_size,
{
}

} // verus!
