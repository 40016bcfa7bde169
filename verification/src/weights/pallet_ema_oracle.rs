//! Weights of the EMA oracle pallet.
use vstd::prelude::*;

use crate::weights::{cap, saturating_mul_u64, RuntimeDbWeight, Weight};

verus! {

/// The weights of the Basilisk runtime for the EMA oracle pallet.
pub struct BasiliskWeight;

/// The weight of `add_oracle`.
pub open spec fn add_oracle_weight(db: RuntimeDbWeight) -> Weight {
    Weight {
        ref_time: cap(9_000_000 + db.read * 1 + db.write * 1) as u64,
        proof_size: 1_966,
    }
}

/// The weight of `remove_oracle`.
pub open spec fn remove_oracle_weight(db: RuntimeDbWeight) -> Weight {
    Weight {
        ref_time: cap(30_000_000 + db.read * 2 + db.write * 7) as u64,
        proof_size: 5_926,
    }
}

/// The weight of `on_finalize_no_entry`.
pub open spec fn on_finalize_no_entry_weight(db: RuntimeDbWeight) -> Weight {
    Weight {
        ref_time: cap(1_000_000 + db.read * 1) as u64,
        proof_size: 5_926,
    }
}

/// The weight of `on_finalize_multiple_tokens`.
pub open spec fn on_finalize_multiple_tokens_weight(db: RuntimeDbWeight, b: u32) -> Weight {
    Weight {
        ref_time: cap(4_299_179 + 50_164_476 * b + db.read * 1 + db.read * (5 * b) + db.write * 1 + db.write * (5 * b)) as u64,
        proof_size: cap(5_926 + 13_260 * b) as u64,
    }
}

/// The weight of `on_trade_multiple_tokens`.
pub open spec fn on_trade_multiple_tokens_weight(db: RuntimeDbWeight, b: u32) -> Weight {
    Weight {
        ref_time: cap(4_296_787 + 260_728 * b + db.read * 1 + db.write * 1) as u64,
        proof_size: 5_926,
    }
}

/// The weight of `on_liquidity_changed_multiple_tokens`.
pub open spec fn on_liquidity_changed_multiple_tokens_weight(db: RuntimeDbWeight, b: u32) -> Weight {
    Weight {
        ref_time: cap(4_362_529 + 258_853 * b + db.read * 1 + db.write * 1) as u64,
        proof_size: 5_926,
    }
}

/// The weight of `get_entry`.
pub open spec fn get_entry_weight(db: RuntimeDbWeight) -> Weight {
    Weight {
        ref_time: cap(13_000_000 + db.read * 2) as u64,
        proof_size: 6_294,
    }
}

impl BasiliskWeight {
    /// The weight of `add_oracle`.
    pub fn add_oracle(db: RuntimeDbWeight) -> (w: Weight)
        ensures
            w == add_oracle_weight(db),
    {
        Weight::from_parts(9_000_000, 1_966)
            .saturating_add(db.reads(1))
            .saturating_add(db.writes(1))
    }

    /// The weight of `remove_oracle`.
    pub fn remove_oracle(db: RuntimeDbWeight) -> (w: Weight)
        ensures
            w == remove_oracle_weight(db),
    {
        Weight::from_parts(30_000_000, 5_926)
            .saturating_add(db.reads(2))
            .saturating_add(db.writes(7))
    }

    /// The weight of `on_finalize_no_entry`.
    pub fn on_finalize_no_entry(db: RuntimeDbWeight) -> (w: Weight)
        ensures
            w == on_finalize_no_entry_weight(db),
    {
        Weight::from_parts(1_000_000, 5_926)
            .saturating_add(db.reads(1))
    }

    /// The weight of `on_finalize_multiple_tokens`.
    pub fn on_finalize_multiple_tokens(db: RuntimeDbWeight, b: u32) -> (w: Weight)
        ensures
            w == on_finalize_multiple_tokens_weight(db, b),
    {
        Weight::from_parts(4_299_179, 5_926)
            .saturating_add(Weight::from_parts(50_164_476, 0).saturating_mul(b as u64))
            .saturating_add(db.reads(1))
            .saturating_add(db.reads(saturating_mul_u64(5, b as u64)))
            .saturating_add(db.writes(1))
            .saturating_add(db.writes(saturating_mul_u64(5, b as u64)))
            .saturating_add(Weight::from_parts(0, 13_260).saturating_mul(b as u64))
    }

    /// The weight of `on_trade_multiple_tokens`.
    pub fn on_trade_multiple_tokens(db: RuntimeDbWeight, b: u32) -> (w: Weight)
        ensures
            w == on_trade_multiple_tokens_weight(db, b),
    {
        Weight::from_parts(4_296_787, 5_926)
            .saturating_add(Weight::from_parts(260_728, 0).saturating_mul(b as u64))
            .saturating_add(db.reads(1))
            .saturating_add(db.writes(1))
    }

    /// The weight of `on_liquidity_changed_multiple_tokens`.
    pub fn on_liquidity_changed_multiple_tokens(db: RuntimeDbWeight, b: u32) -> (w: Weight)
        ensures
            w == on_liquidity_changed_multiple_tokens_weight(db, b),
    {
        Weight::from_parts(4_362_529, 5_926)
            .saturating_add(Weight::from_parts(258_853, 0).saturating_mul(b as u64))
            .saturating_add(db.reads(1))
            .saturating_add(db.writes(1))
    }

    /// The weight of `get_entry`.
    pub fn get_entry(db: RuntimeDbWeight) -> (w: Weight)
        ensures
            w == get_entry_weight(db),
    {
        Weight::from_parts(13_000_000, 6_294)
            .saturating_add(db.reads(2))
    }
}

/// The weight of `on_finalize_multiple_tokens` grows with `b`.
pub proof fn lemma_on_finalize_multiple_tokens_monotone(db: RuntimeDbWeight, b1: u32, b2: u32)
    requires
        b1 <= b2,
    ensures
        on_finalize_multiple_tokens_weight(db, b1).ref_time <= on_finalize_multiple_tokens_weight(db, b2).ref_time,
        on_finalize_multiple_tokens_weight(db, b1).proof_size <= on_finalize_multiple_tokens_weight(db, b2).proof_size,
{
    assert(db.read * (5 * b1) <= db.read * (5 * b2)) by (nonlinear_arith)
        requires
            b1 <= b2,
            0 <= db.read,
    ;
    assert(db.write * (5 * b1) <= db.write * (5 * b2)) by (nonlinear_arith)
        requires
            b1 <= b2,
            0 <= db.write,
    ;
}

/// The weight of `on_trade_multiple_tokens` grows with `b`.
pub proof fn lemma_on_trade_multiple_tokens_monotone(db: RuntimeDbWeight, b1: u32, b2: u32)
    requires
        b1 <= b2,
    ensures
        on_trade_multiple_tokens_weight(db, b1).ref_time <= on_trade_multiple_tokens_weight(db, b2).ref_time,
        on_trade_multiple_tokens_weight(db, b1).proof_size <= on_trade_multiple_tokens_weight(db, b2).proof_size,
{
}

/// The weight of `on_liquidity_changed_multiple_tokens` grows with `b`.
pub proof fn lemma_on_liquidity_changed_multiple_tokens_monotone(db: RuntimeDbWeight, b1: u32, b2: u32)
    requires
        b1 <= b2,
    ensures
        on_liquidity_changed_multiple_tokens_weight(db, b1).ref_time <= on_liquidity_changed_multiple_tokens_weight(db, b2).ref_time,
        on_liquidity_changed_multiple_tokens_weight(db, b1).proof_size <= on_liquidity_changed_multiple_tokens_weight(db, b2).proof_size,
{
}

} // verus!
