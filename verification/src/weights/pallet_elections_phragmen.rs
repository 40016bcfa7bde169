//! Weights of the Phragmén elections pallet.
use vstd::prelude::*;

use crate::weights::{cap, saturating_mul_u64, RuntimeDbWeight, Weight};

verus! {

/// The weights of the Basilisk runtime for the Phragmén elections pallet.
pub struct BasiliskWeight;

/// The weight of `vote_equal`.
pub open spec fn vote_equal_weight(db: RuntimeDbWeight, v: u32) -> Weight {
    Weight {
        ref_time: cap(25_332_904 + 167_145 * v + db.read * 6 + db.write * 2) as u64,
        proof_size: cap(4_764 + 87 * v) as u64,
    }
}

/// The weight of `vote_more`.
pub open spec fn vote_more_weight(db: RuntimeDbWeight, v: u32) -> Weight {
    Weight {
        ref_time: cap(34_936_209 + 233_434 * v + db.read * 6 + db.write * 2) as u64,
        proof_size: cap(4_764 + 86 * v) as u64,
    }
}

/// The weight of `vote_less`.
pub open spec fn vote_less_weight(db: RuntimeDbWeight, v: u32) -> Weight {
    Weight {
        ref_time: cap(34_972_420 + 221_908 * v + db.read * 6 + db.write * 2) as u64,
        proof_size: cap(4_764 + 86 * v) as u64,
    }
}

/// The weight of `remove_voter`.
pub open spec fn remove_voter_weight(db: RuntimeDbWeight) -> Weight {
    Weight {
        ref_time: cap(36_000_000 + db.read * 3 + db.write * 2) as u64,
        proof_size: 4_764,
    }
}

/// The weight of `submit_candidacy`.
pub open spec fn submit_candidacy_weight(db: RuntimeDbWeight, c: u32) -> Weight {
    Weight {
        ref_time: cap(26_250_310 + 33_998 * c + db.read * 3 + db.write * 1) as u64,
        proof_size: cap(2_703 + 48 * c) as u64,
    }
}

/// The weight of `renounce_candidacy_candidate`.
pub open spec fn renounce_candidacy_candidate_weight(db: RuntimeDbWeight, c: u32) -> Weight {
    Weight {
        ref_time: cap(22_093_706 + 18_184 * c + db.read * 1 + db.write * 1) as u64,
        proof_size: cap(1_744 + 48 * c) as u64,
    }
}

/// The weight of `renounce_candidacy_members`.
pub open spec fn renounce_candidacy_members_weight(db: RuntimeDbWeight) -> Weight {
    Weight {
        ref_time: cap(29_000_000 + db.read * 4 + db.write * 4) as u64,
        proof_size: 2_753,
    }
}

/// The weight of `renounce_candidacy_runners_up`.
pub open spec fn renounce_candidacy_runners_up_weight(db: RuntimeDbWeight) -> Weight {
    Weight {
        ref_time: cap(21_000_000 + db.read * 1 + db.write * 1) as u64,
        proof_size: 2_313,
    }
}

/// The weight of `remove_member_without_replacement`.
pub open spec fn remove_member_without_replacement_weight(db: RuntimeDbWeight) -> Weight {
    Weight {
        ref_time: 500_000_000_000,
        proof_size: 0,
    }
}

/// The weight of `remove_member_with_replacement`.
pub open spec fn remove_member_with_replacement_weight(db: RuntimeDbWeight) -> Weight {
    Weight {
        ref_time: cap(47_000_000 + db.read * 5 + db.write * 5) as u64,
        proof_size: 3_593,
    }
}

/// The weight of `clean_defunct_voters`.
pub open spec fn clean_defunct_voters_weight(db: RuntimeDbWeight, v: u32, d: u32) -> Weight {
    Weight {
        ref_time: cap(496_259_094 + 46_455_799 * d + db.read * 3 + db.read * (4 * d) + db.write * (3 * d)) as u64,
        proof_size: cap(78_676 + 3_774 * d + 10 * v) as u64,
    }
}

/// The weight of `election_phragmen`.
pub open spec fn election_phragmen_weight(db: RuntimeDbWeight, c: u32, v: u32, e: u32) -> Weight {
    Weight {
        ref_time: cap(2_506_000_000 + 10_087_217 * v + 620_378 * e + db.read * 39 + db.read * (1 * c) + db.read * (1 * v) + db.write * 6 + db.write * (1 * c)) as u64,
        proof_size: cap(278_441 + 2_346 * c + 13 * e + 2_557 * v) as u64,
    }
}

impl BasiliskWeight {
    /// The weight of `vote_equal`.
    pub fn vote_equal(db: RuntimeDbWeight, v: u32) -> (w: Weight)
        ensures
            w == vote_equal_weight(db, v),
    {
        Weight::from_parts(25_332_904, 4_764)
            .saturating_add(Weight::from_parts(167_145, 0).saturating_mul(v as u64))
            .saturating_add(db.reads(6))
            .saturating_add(db.writes(2))
            .saturating_add(Weight::from_parts(0, 87).saturating_mul(v as u64))
    }

    /// The weight of `vote_more`.
    pub fn vote_more(db: RuntimeDbWeight, v: u32) -> (w: Weight)
        ensures
            w == vote_more_weight(db, v),
    {
        Weight::from_parts(34_936_209, 4_764)
            .saturating_add(Weight::from_parts(233_434, 0).saturating_mul(v as u64))
            .saturating_add(db.reads(6))
            .saturating_add(db.writes(2))
            .saturating_add(Weight::from_parts(0, 86).saturating_mul(v as u64))
    }

    /// The weight of `vote_less`.
    pub fn vote_less(db: RuntimeDbWeight, v: u32) -> (w: Weight)
        ensures
            w == vote_less_weight(db, v),
    {
        Weight::from_parts(34_972_420, 4_764)
            .saturating_add(Weight::from_parts(221_908, 0).saturating_mul(v as u64))
            .saturating_add(db.reads(6))
            .saturating_add(db.writes(2))
            .saturating_add(Weight::from_parts(0, 86).saturating_mul(v as u64))
    }

    /// The weight of `remove_voter`.
    pub fn remove_voter(db: RuntimeDbWeight) -> (w: Weight)
        ensures
            w == remove_voter_weight(db),
    {
        Weight::from_parts(36_000_000, 4_764)
            .saturating_add(db.reads(3))
            .saturating_add(db.writes(2))
    }

    /// The weight of `submit_candidacy`.
    pub fn submit_candidacy(db: RuntimeDbWeight, c: u32) -> (w: Weight)
        ensures
            w == submit_candidacy_weight(db, c),
    {
        Weight::from_parts(26_250_310, 2_703)
            .saturating_add(Weight::from_parts(33_998, 0).saturating_mul(c as u64))
            .saturating_add(db.reads(3))
            .saturating_add(db.writes(1))
            .saturating_add(Weight::from_parts(0, 48).saturating_mul(c as u64))
    }

    /// The weight of `renounce_candidacy_candidate`.
    pub fn renounce_candidacy_candidate(db: RuntimeDbWeight, c: u32) -> (w: Weight)
        ensures
            w == renounce_candidacy_candidate_weight(db, c),
    {
        Weight::from_parts(22_093_706, 1_744)
            .saturating_add(Weight::from_parts(18_184, 0).saturating_mul(c as u64))
            .saturating_add(db.reads(1))
            .saturating_add(db.writes(1))
            .saturating_add(Weight::from_parts(0, 48).saturating_mul(c as u64))
    }

    /// The weight of `renounce_candidacy_members`.
    pub fn renounce_candidacy_members(db: RuntimeDbWeight) -> (w: Weight)
        ensures
            w == renounce_candidacy_members_weight(db),
    {
        Weight::from_parts(29_000_000, 2_753)
            .saturating_add(db.reads(4))
            .saturating_add(db.writes(4))
    }

    /// The weight of `renounce_candidacy_runners_up`.
    pub fn renounce_candidacy_runners_up(db: RuntimeDbWeight) -> (w: Weight)
        ensures
            w == renounce_candidacy_runners_up_weight(db),
    {
        Weight::from_parts(21_000_000, 2_313)
            .saturating_add(db.reads(1))
            .saturating_add(db.writes(1))
    }

    /// The weight of `remove_member_without_replacement`.
    pub fn remove_member_without_replacement(db: RuntimeDbWeight) -> (w: Weight)
        ensures
            w == remove_member_without_replacement_weight(db),
    {
        Weight::from_parts(500_000_000_000, 0)
    }

    /// The weight of `remove_member_with_replacement`.
    pub fn remove_member_with_replacement(db: RuntimeDbWeight) -> (w: Weight)
        ensures
            w == remove_member_with_replacement_weight(db),
    {
        Weight::from_parts(47_000_000, 3_593)
            .saturating_add(db.reads(5))
            .saturating_add(db.writes(5))
    }

    /// The weight of `clean_defunct_voters`.
    pub fn clean_defunct_voters(db: RuntimeDbWeight, v: u32, d: u32) -> (w: Weight)
        ensures
            w == clean_defunct_voters_weight(db, v, d),
    {
        Weight::from_parts(496_259_094, 78_676)
            .saturating_add(Weight::from_parts(46_455_799, 0).saturating_mul(d as u64))
            .saturating_add(db.reads(3))
            .saturating_add(db.reads(saturating_mul_u64(4, d as u64)))
            .saturating_add(db.writes(saturating_mul_u64(3, d as u64)))
            .saturating_add(Weight::from_parts(0, 3_774).saturating_mul(d as u64))
            .saturating_add(Weight::from_parts(0, 10).saturating_mul(v as u64))
    }

    /// The weight of `election_phragmen`.
    pub fn election_phragmen(db: RuntimeDbWeight, c: u32, v: u32, e: u32) -> (w: Weight)
        ensures
            w == election_phragmen_weight(db, c, v, e),
    {
        Weight::from_parts(2_506_000_000, 278_441)
            .saturating_add(Weight::from_parts(10_087_217, 0).saturating_mul(v as u64))
            .saturating_add(Weight::from_parts(620_378, 0).saturating_mul(e as u64))
            .saturating_add(db.reads(39))
            .saturating_add(db.reads(saturating_mul_u64(1, c as u64)))
            .saturating_add(db.reads(saturating_mul_u64(1, v as u64)))
            .saturating_add(db.writes(6))
            .saturating_add(db.writes(saturating_mul_u64(1, c as u64)))
            .saturating_add(Weight::from_parts(0, 2_346).saturating_mul(c as u64))
            .saturating_add(Weight::from_parts(0, 13).saturating_mul(e as u64))
            .saturating_add(Weight::from_parts(0, 2_557).saturating_mul(v as u64))
    }
}

/// The weight of `vote_equal` grows with `v`.
pub proof fn lemma_vote_equal_monotone(db: RuntimeDbWeight, v1: u32, v2: u32)
    requires
        v1 <= v2,
    ensures
        vote_equal_weight(db, v1).ref_time <= vote_equal_weight(db, v2).ref_time,
        vote_equal_weight(db, v1).proof_size <= vote_equal_weight(db, v2).proof_size,
{
}

/// The weight of `vote_more` grows with `v`.
pub proof fn lemma_vote_more_monotone(db: RuntimeDbWeight, v1: u32, v2: u32)
    requires
        v1 <= v2,
    ensures
        vote_more_weight(db, v1).ref_time <= vote_more_weight(db, v2).ref_time,
        vote_more_weight(db, v1).proof_size <= vote_more_weight(db, v2).proof_size,
{
}

/// The weight of `vote_less` grows with `v`.
pub proof fn lemma_vote_less_monotone(db: RuntimeDbWeight, v1: u32, v2: u32)
    requires
        v1 <= v2,
    ensures
        vote_less_weight(db, v1).ref_time <= vote_less_weight(db, v2).ref_time,
        vote_less_weight(db, v1).proof_size <= vote_less_weight(db, v2).proof_size,
{
}

/// The weight of `submit_candidacy` grows with `c`.
pub proof fn lemma_submit_candidacy_monotone(db: RuntimeDbWeight, c1: u32, c2: u32)
    requires
        c1 <= c2,
    ensures
        submit_candidacy_weight(db, c1).ref_time <= submit_candidacy_weight(db, c2).ref_time,
        submit_candidacy_weight(db, c1).proof_size <= submit_candidacy_weight(db, c2).proof_size,
{
}

/// The weight of `renounce_candidacy_candidate` grows with `c`.
pub proof fn lemma_renounce_candidacy_candidate_monotone(db: RuntimeDbWeight, c1: u32, c2: u32)
    requires
        c1 <= c2,
    ensures
        renounce_candidacy_candidate_weight(db, c1).ref_time <= renounce_candidacy_candidate_weight(db, c2).ref_time,
        renounce_candidacy_candidate_weight(db, c1).proof_size <= renounce_candidacy_candidate_weight(db, c2).proof_size,
{
}

/// The weight of `clean_defunct_voters` grows with `v`, `d`.
pub proof fn lemma_clean_defunct_voters_monotone(db: RuntimeDbWeight, v1: u32, v2: u32, d1: u32, d2: u32)
    requires
        v1 <= v2,
        d1 <= d2,
    ensures
        clean_defunct_voters_weight(db, v1, d1).ref_time <= clean_defunct_voters_weight(db, v2, d2).ref_time,
        clean_defunct_voters_weight(db, v1, d1).proof_size <= clean_defunct_voters_weight(db, v2, d2).proof_size,
{
    assert(db.read * (4 * d1) <= db.read * (4 * d2)) by (nonlinear_arith)
        requires
            d1 <= d2,
            0 <= db.read,
    ;
    assert(db.write * (3 * d1) <= db.write * (3 * d2)) by (nonlinear_arith)
        requires
            d1 <= d2,
            0 <= db.write,
    ;
}

/// The weight of `election_phragmen` grows with `c`, `v`, `e`.
pub proof fn lemma_election_phragmen_monotone(db: RuntimeDbWeight, c1: u32, c2: u32, v1: u32, v2: u32, e1: u32, e2: u32)
    requires
        c1 <= c2,
        v1 <= v2,
        e1 <= e2,
    ensures
        election_phragmen_weight(db, c1, v1, e1).ref_time <= election_phragmen_weight(db, c2, v2, e2).ref_time,
        election_phragmen_weight(db, c1, v1, e1).proof_size <= election_phragmen_weight(db, c2, v2, e2).proof_size,
{
    assert(db.read * (1 * c1) <= db.read * (1 * c2)) by (nonlinear_arith)
        requires
            c1 <= c2,
            0 <= db.read,
    ;
    assert(db.read * (1 * v1) <= db.read * (1 * v2)) by (nonlinear_arith)
        requires
            v1 <= v2,
            0 <= db.read,
    ;
    assert(db.write * (1 * c1) <= db.write * (1 * c2)) by (nonlinear_arith)
        requires
            c1 <= c2,
            0 <= db.write,
    ;
}

} // verus!
