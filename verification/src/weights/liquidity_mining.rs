//! Weights of the liquidity-mining pallet.
use vstd::prelude::*;

use crate::weights::{cap, rocks_db_weight, saturating_mul_u64, RuntimeDbWeight, Weight};

verus! {

/// The weights of the Basilisk runtime for the liquidity-mining pallet.
pub struct BasiliskWeight;

/// The weight of `create_farm`.
pub open spec fn create_farm_weight(db: RuntimeDbWeight) -> Weight {
    Weight {
        ref_time: cap(175_953_000 + db.read * 3 + db.write * 4) as u64,
        proof_size: 0,
    }
}

/// The weight of `destroy_farm`.
pub open spec fn destroy_farm_weight(db: RuntimeDbWeight) -> Weight {
    Weight {
        ref_time: cap(57_555_000 + db.read * 2 + db.write * 1) as u64,
        proof_size: 0,
    }
}

/// The weight of `withdraw_undistributed_rewards`.
pub open spec fn withdraw_undistributed_rewards_weight(db: RuntimeDbWeight) -> Weight {
    Weight {
        ref_time: cap(116_707_000 + db.read * 3 + db.write * 2) as u64,
        proof_size: 0,
    }
}

/// The weight of `add_liquidity_pool`.
pub open spec fn add_liquidity_pool_weight(db: RuntimeDbWeight) -> Weight {
    Weight {
        ref_time: cap(94_313_000 + db.read * 6 + db.write * 7) as u64,
        proof_size: 0,
    }
}

/// The weight of `update_liquidity_pool`.
pub open spec fn update_liquidity_pool_weight(db: RuntimeDbWeight) -> Weight {
    Weight {
        ref_time: cap(32_332_000 + db.read * 2 + db.write * 2) as u64,
        proof_size: 0,
    }
}

/// The weight of `cancel_liquidity_pool`.
pub open spec fn cancel_liquidity_pool_weight(db: RuntimeDbWeight) -> Weight {
    Weight {
        ref_time: cap(77_309_000 + db.read * 3 + db.write * 2) as u64,
        proof_size: 0,
    }
}

/// The weight of `remove_liquidity_pool`.
pub open spec fn remove_liquidity_pool_weight(db: RuntimeDbWeight) -> Weight {
    Weight {
        ref_time: cap(110_016_000 + db.read * 6 + db.write * 6) as u64,
        proof_size: 0,
    }
}

/// The weight of `deposit_shares`.
pub open spec fn deposit_shares_weight(db: RuntimeDbWeight) -> Weight {
    Weight {
        ref_time: cap(218_776_000 + db.read * 13 + db.write * 12) as u64,
        proof_size: 0,
    }
}

/// The weight of `claim_rewards`.
pub open spec fn claim_rewards_weight(db: RuntimeDbWeight) -> Weight {
    Weight {
        ref_time: cap(247_594_000 + db.read * 8 + db.write * 6) as u64,
        proof_size: 0,
    }
}

/// The weight of `withdraw_shares`.
pub open spec fn withdraw_shares_weight(db: RuntimeDbWeight) -> Weight {
    Weight {
        ref_time: cap(441_755_000 + db.read * 14 + db.write * 13) as u64,
        proof_size: 0,
    }
}

impl BasiliskWeight {
    /// The weight of `create_farm`.
    pub fn create_farm(db: RuntimeDbWeight) -> (w: Weight)
        ensures
            w == create_farm_weight(db),
    {
        Weight::from_ref_time(175_953_000)
            .saturating_add(db.reads(3))
            .saturating_add(db.writes(4))
    }

    /// The weight of `destroy_farm`.
    pub fn destroy_farm(db: RuntimeDbWeight) -> (w: Weight)
        ensures
            w == destroy_farm_weight(db),
    {
        Weight::from_ref_time(57_555_000)
            .saturating_add(db.reads(2))
            .saturating_add(db.writes(1))
    }

    /// The weight of `withdraw_undistributed_rewards`.
    pub fn withdraw_undistributed_rewards(db: RuntimeDbWeight) -> (w: Weight)
        ensures
            w == withdraw_undistributed_rewards_weight(db),
    {
        Weight::from_ref_time(116_707_000)
            .saturating_add(db.reads(3))
            .saturating_add(db.writes(2))
    }

    /// The weight of `add_liquidity_pool`.
    pub fn add_liquidity_pool(db: RuntimeDbWeight) -> (w: Weight)
        ensures
            w == add_liquidity_pool_weight(db),
    {
        Weight::from_ref_time(94_313_000)
            .saturating_add(db.reads(6))
            .saturating_add(db.writes(7))
    }

    /// The weight of `update_liquidity_pool`.
    pub fn update_liquidity_pool(db: RuntimeDbWeight) -> (w: Weight)
        ensures
            w == update_liquidity_pool_weight(db),
    {
        Weight::from_ref_time(32_332_000)
            .saturating_add(db.reads(2))
            .saturating_add(db.writes(2))
    }

    /// The weight of `cancel_liquidity_pool`.
    pub fn cancel_liquidity_pool(db: RuntimeDbWeight) -> (w: Weight)
        ensures
            w == cancel_liquidity_pool_weight(db),
    {
        Weight::from_ref_time(77_309_000)
            .saturating_add(db.reads(3))
            .saturating_add(db.writes(2))
    }

    /// The weight of `remove_liquidity_pool`.
    pub fn remove_liquidity_pool(db: RuntimeDbWeight) -> (w: Weight)
        ensures
            w == remove_liquidity_pool_weight(db),
    {
        Weight::from_ref_time(110_016_000)
            .saturating_add(db.reads(6))
            .saturating_add(db.writes(6))
    }

    /// The weight of `deposit_shares`.
    pub fn deposit_shares(db: RuntimeDbWeight) -> (w: Weight)
        ensures
            w == deposit_shares_weight(db),
    {
        Weight::from_ref_time(218_776_000)
            .saturating_add(db.reads(13))
            .saturating_add(db.writes(12))
    }

    /// The weight of `claim_rewards`.
    pub fn claim_rewards(db: RuntimeDbWeight) -> (w: Weight)
        ensures
            w == claim_rewards_weight(db),
    {
        Weight::from_ref_time(247_594_000)
            .saturating_add(db.reads(8))
            .saturating_add(db.writes(6))
    }

    /// The weight of `withdraw_shares`.
    pub fn withdraw_shares(db: RuntimeDbWeight) -> (w: Weight)
        ensures
            w == withdraw_shares_weight(db),
    {
        Weight::from_ref_time(441_755_000)
            .saturating_add(db.reads(14))
            .saturating_add(db.writes(13))
    }
}

/// The weight of `create_farm` on a RocksDB backend, for tests and defaults.
pub fn create_farm() -> (w: Weight)
    ensures
        w == create_farm_weight(rocks_db_weight()),
{
    Weight::from_ref_time(175_953_000)
        .saturating_add(RuntimeDbWeight::rocks_db().reads(3))
        .saturating_add(RuntimeDbWeight::rocks_db().writes(4))
}

/// The weight of `destroy_farm` on a RocksDB backend, for tests and defaults.
pub fn destroy_farm() -> (w: Weight)
    ensures
        w == destroy_farm_weight(rocks_db_weight()),
{
    Weight::from_ref_time(57_555_000)
        .saturating_add(RuntimeDbWeight::rocks_db().reads(2))
        .saturating_add(RuntimeDbWeight::rocks_db().writes(1))
}

/// The weight of `withdraw_undistributed_rewards` on a RocksDB backend, for tests and defaults.
pub fn withdraw_undistributed_rewards() -> (w: Weight)
    ensures
        w == withdraw_undistributed_rewards_weight(rocks_db_weight()),
{
    Weight::from_ref_time(116_707_000)
        .saturating_add(RuntimeDbWeight::rocks_db().reads(3))
        .saturating_add(RuntimeDbWeight::rocks_db().writes(2))
}

/// The weight of `add_liquidity_pool` on a RocksDB backend, for tests and defaults.
pub fn add_liquidity_pool() -> (w: Weight)
    ensures
        w == add_liquidity_pool_weight(rocks_db_weight()),
{
    Weight::from_ref_time(94_313_000)
        .saturating_add(RuntimeDbWeight::rocks_db().reads(6))
        .saturating_add(RuntimeDbWeight::rocks_db().writes(7))
}

/// The weight of `update_liquidity_pool` on a RocksDB backend, for tests and defaults.
pub fn update_liquidity_pool() -> (w: Weight)
    ensures
        w == update_liquidity_pool_weight(rocks_db_weight()),
{
    Weight::from_ref_time(32_332_000)
        .saturating_add(RuntimeDbWeight::rocks_db().reads(2))
        .saturating_add(RuntimeDbWeight::rocks_db().writes(2))
}

/// The weight of `cancel_liquidity_pool` on a RocksDB backend, for tests and defaults.
pub fn cancel_liquidity_pool() -> (w: Weight)
    ensures
        w == cancel_liquidity_pool_weight(rocks_db_weight()),
{
    Weight::from_ref_time(77_309_000)
        .saturating_add(RuntimeDbWeight::rocks_db().reads(3))
        .saturating_add(RuntimeDbWeight::rocks_db().writes(2))
}

/// The weight of `remove_liquidity_pool` on a RocksDB backend, for tests and defaults.
pub fn remove_liquidity_pool() -> (w: Weight)
    ensures
        w == remove_liquidity_pool_weight(rocks_db_weight()),
{
    Weight::from_ref_time(110_016_000)
        .saturating_add(RuntimeDbWeight::rocks_db().reads(6))
        .saturating_add(RuntimeDbWeight::rocks_db().writes(6))
}

/// The weight of `deposit_shares` on a RocksDB backend, for tests and defaults.
pub fn deposit_shares() -> (w: Weight)
    ensures
        w == deposit_shares_weight(rocks_db_weight()),
{
    Weight::from_ref_time(218_776_000)
        .saturating_add(RuntimeDbWeight::rocks_db().reads(13))
        .saturating_add(RuntimeDbWeight::rocks_db().writes(12))
}

/// The weight of `claim_rewards` on a RocksDB backend, for tests and defaults.
pub fn claim_rewards() -> (w: Weight)
    ensures
        w == claim_rewards_weight(rocks_db_weight()),
{
    Weight::from_ref_time(247_594_000)
        .saturating_add(RuntimeDbWeight::rocks_db().reads(8))
        .saturating_add(RuntimeDbWeight::rocks_db().writes(6))
}

/// The weight of `withdraw_shares` on a RocksDB backend, for tests and defaults.
pub fn withdraw_shares() -> (w: Weight)
    ensures
        w == withdraw_shares_weight(rocks_db_weight()),
{
    Weight::from_ref_time(441_755_000)
        .saturating_add(RuntimeDbWeight::rocks_db().reads(14))
        .saturating_add(RuntimeDbWeight::rocks_db().writes(13))
}

} // verus!
