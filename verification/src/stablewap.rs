//! Two-asset stableswap pools (first version of the pallet).
//!
//! A pool is created with initial liquidity of both of its assets and issues shares of its own
//! share asset. Liquidity is added by naming an amount of one asset; the amount of the other
//! asset is whatever keeps the ratio of the reserves:
//! `new_reserve_b = (reserve_a + amount) * reserve_b / reserve_a`.
//! Liquidity is removed by burning shares, for both assets at once. Trades follow the curve
//! computed by `hydra_dx_math`, less a fee.
//!
//! Balances of accounts and the asset registry belong to other pallets: the functions here take
//! what they read from them as arguments and return the transfers to make as
//! [`CurrencyAction`]s.
use vstd::prelude::*;

use std::collections::HashMap;

use crate::arithmetic::{multiply_by_rational_floor, Permill};
use crate::constants::{AccountId, Balance};
use crate::currency::{trade_actions, AssetId, CurrencyAction};
use crate::hydra_math::{
    calculate_add_liquidity_shares, calculate_in_given_out, calculate_out_given_in,
    calculate_remove_liquidity_amounts, share_of, stableswap_add_liquidity_shares,
    stableswap_in_given_out, stableswap_out_given_in,
};

verus! {

broadcast use vstd::std_specs::hash::group_hash_axioms;

/// A pool, named by its share asset.
#[derive(Clone, Copy, Debug, PartialEq, Eq)]
pub struct PoolId(pub AssetId);

/// The two assets of a pool, the smaller id first.
#[derive(Clone, Copy, Debug, PartialEq, Eq)]
pub struct PoolAssets(pub AssetId, pub AssetId);

/// Reserves or amounts of the two assets of a pool.
#[derive(Clone, Copy, Debug, PartialEq, Eq)]
pub struct AssetAmounts(pub Balance, pub Balance);

/// A pool's parameters.
#[derive(Clone, Copy, Debug)]
pub struct PoolInfo {
    pub assets: PoolAssets,
    pub amplification: u16,
    pub fee: Permill,
}

/// The pallet's configuration constants.
#[derive(Clone, Copy, Debug)]
pub struct StablewapConfig {
    /// Convergence precision of the curve math.
    pub precision: Balance,
    /// Fewest shares a pool may have.
    pub min_pool_liquidity: Balance,
    /// Smallest amount of a trade or of added liquidity.
    pub min_trading_limit: Balance,
    /// Smallest amplification a pool may have.
    pub amplification_min: u16,
    /// Largest amplification a pool may have.
    pub amplification_max: u16,
}

/// Errors of the pallet, arithmetic overflow and underflow included.
#[derive(Clone, Copy, Debug, PartialEq, Eq)]
pub enum StablewapError {
    SameAssets,
    PoolNotFound,
    PoolExists,
    AssetNotInPool,
    AssetNotRegistered,
    InvalidAssetAmount,
    InsufficientBalance,
    InsufficientShares,
    InsufficientLiquidity,
    InsufficientLiquidityRemaining,
    InsufficientTradingAmount,
    BuyLimitNotReached,
    SellLimitExceeded,
    InvalidInitialLiquidity,
    BalanceTooLow,
    InvalidAmplification,
    Overflow,
    Underflow,
}

/// Events of the pallet.
#[derive(Clone, Copy, Debug, PartialEq, Eq)]
pub enum StablewapEvent {
    PoolCreated {
        id: PoolId,
        assets: (AssetId, AssetId),
        initial_liquidity: (Balance, Balance),
        amplification: u16,
    },
    LiquidityAdded {
        id: PoolId,
        who: AccountId,
        assets: (AssetId, AssetId),
        amounts: (Balance, Balance),
    },
    LiquidityRemoved { id: PoolId, who: AccountId, shares: Balance, amounts: (Balance, Balance) },
    SellExecuted {
        who: AccountId,
        asset_in: AssetId,
        asset_out: AssetId,
        amount_in: Balance,
        amount_out: Balance,
        fee: Balance,
    },
    BuyExecuted {
        who: AccountId,
        asset_in: AssetId,
        asset_out: AssetId,
        amount_in: Balance,
        amount_out: Balance,
        fee: Balance,
    },
}

impl PoolAssets {
    /// The pair ordered by id.
    pub open spec fn spec_new(assets: (AssetId, AssetId)) -> PoolAssets {
        if assets.0 <= assets.1 {
            PoolAssets(assets.0, assets.1)
        } else {
            PoolAssets(assets.1, assets.0)
        }
    }

    /// The pair ordered by id.
    pub fn new(assets: (AssetId, AssetId)) -> (r: PoolAssets)
        ensures
            r == PoolAssets::spec_new(assets),
    {
        if assets.0 <= assets.1 {
            PoolAssets(assets.0, assets.1)
        } else {
            PoolAssets(assets.1, assets.0)
        }
    }

    /// A pool needs two different assets.
    pub fn is_valid(&self) -> (r: bool)
        ensures
            r == (self.0 != self.1),
    {
        self.0 != self.1
    }

    /// Whether `asset` is one of the two.
    pub fn contains(&self, asset: AssetId) -> (r: bool)
        ensures
            r == (asset == self.0 || asset == self.1),
    {
        asset == self.0 || asset == self.1
    }
}

/// Fee of a trade: `amount` times the fee, rounded down for sells and up for buys.
pub open spec fn fee_amount(amount: Balance, fee: Permill, round_up: bool) -> int {
    if round_up {
        (amount * fee.parts() + 999_999) / 1_000_000
    } else {
        amount * fee.parts() / 1_000_000
    }
}

/// Fee of a trade on `amount`, rounded down (`round_up` false) or up.
pub fn calculate_fee_amount(amount: Balance, fee: Permill, round_up: bool) -> (r: Balance)
    ensures
        r == fee_amount(amount, fee, round_up),
        r <= amount,
{
    if round_up {
        fee.mul_ceil(amount)
    } else {
        fee.mul_floor(amount)
    }
}

/// Reserve of asset b that keeps the ratio of the reserves when asset a's reserve grows from
/// `reserve_a` to `updated_reserve_a`: `updated_reserve_a * reserve_b / reserve_a`, rounded
/// down; `None` when `reserve_a` is zero or the result does not fit.
pub fn calculate_asset_b_reserve(reserve_a: Balance, reserve_b: Balance, updated_reserve_a: Balance) -> (r:
    Option<Balance>)
    ensures
        r is Some <==> (reserve_a != 0 && (updated_reserve_a * reserve_b) / (reserve_a as int) <= u128::MAX),
        r matches Some(v) ==> v == (updated_reserve_a * reserve_b) / (reserve_a as int),
{
    multiply_by_rational_floor(updated_reserve_a, reserve_b, reserve_a)
}

/// Reserve of asset b after adding `amount` of asset a: `None` on overflow.
pub open spec fn asset_b_reserve_after(initial: (Balance, Balance), amount: Balance) -> Option<int> {
    if initial.0 + amount > u128::MAX || initial.0 == 0 {
        None
    } else if ((initial.0 + amount) * initial.1) / (initial.0 as int) > u128::MAX {
        None
    } else {
        Some(((initial.0 + amount) * initial.1) / (initial.0 as int))
    }
}

/// Reserves of a pool ordered with `asset` first, with the pair of assets in that order.
pub open spec fn ordered_by(pool: PoolInfo, asset: AssetId, reserves: (Balance, Balance)) -> (
    (AssetId, AssetId),
    (Balance, Balance),
) {
    if asset == pool.assets.0 {
        ((asset, pool.assets.1), (reserves.0, reserves.1))
    } else {
        ((asset, pool.assets.0), (reserves.1, reserves.0))
    }
}

/// Outcome of creating a pool: its shares, or the first check that fails.
pub open spec fn create_pool_outcome(
    pools: Map<AssetId, PoolInfo>,
    assets: (AssetId, AssetId),
    initial_liquidity: (Balance, Balance),
    amplification: u16,
    config: StablewapConfig,
    all_registered: bool,
    balances: (Balance, Balance),
    share_asset: AssetId,
    share_amount: Option<Balance>,
) -> Result<Balance, StablewapError> {
    let pool_assets = PoolAssets::spec_new(assets);
    if pool_assets.0 == pool_assets.1 {
        Err(StablewapError::SameAssets)
    } else if amplification < config.amplification_min || amplification > config.amplification_max {
        Err(StablewapError::InvalidAmplification)
    } else if !all_registered {
        Err(StablewapError::AssetNotRegistered)
    } else if initial_liquidity.0 == 0 || initial_liquidity.1 == 0 {
        Err(StablewapError::InvalidInitialLiquidity)
    } else if balances.0 < initial_liquidity.0 || balances.1 < initial_liquidity.1 {
        Err(StablewapError::BalanceTooLow)
    } else if pools.contains_key(share_asset) {
        Err(StablewapError::PoolExists)
    } else {
        match share_amount {
            None => Err(StablewapError::Overflow),
            Some(shares) => if shares < config.min_pool_liquidity {
                Err(StablewapError::InsufficientLiquidity)
            } else {
                Ok(shares)
            },
        }
    }
}

/// Outcome of adding `amount` of `asset`: the shares and the amount of the other asset, or the
/// first check that fails.
pub open spec fn add_liquidity_outcome(
    pools: Map<AssetId, PoolInfo>,
    pool_id: PoolId,
    asset: AssetId,
    amount: Balance,
    asset_balance: Balance,
    other_balance: Balance,
    reserves: (Balance, Balance),
    config: StablewapConfig,
    share_amount: Option<Balance>,
) -> Result<(Balance, Balance), StablewapError> {
    if amount < config.min_trading_limit {
        Err(StablewapError::InsufficientTradingAmount)
    } else if asset_balance < amount {
        Err(StablewapError::InsufficientBalance)
    } else if !pools.contains_key(pool_id.0) {
        Err(StablewapError::PoolNotFound)
    } else if !(asset == pools[pool_id.0].assets.0 || asset == pools[pool_id.0].assets.1) {
        Err(StablewapError::AssetNotInPool)
    } else {
        let initial = ordered_by(pools[pool_id.0], asset, reserves).1;
        match asset_b_reserve_after(initial, amount) {
            None => Err(StablewapError::Overflow),
            Some(b_reserve) => if b_reserve < initial.1 {
                Err(StablewapError::Underflow)
            } else if other_balance < b_reserve - initial.1 {
                Err(StablewapError::InsufficientBalance)
            } else {
                match share_amount {
                    None => Err(StablewapError::Overflow),
                    Some(shares) => Ok((shares, (b_reserve - initial.1) as u128)),
                }
            },
        }
    }
}

/// The shares that adding `amount` of `asset` would issue, when the checks before the curve
/// pass: the curve applied to the reserves before and after.
pub open spec fn add_liquidity_shares(
    pools: Map<AssetId, PoolInfo>,
    pool_id: PoolId,
    asset: AssetId,
    amount: Balance,
    reserves: (Balance, Balance),
    share_issuance: Balance,
    config: StablewapConfig,
) -> Option<Balance> {
    if !pools.contains_key(pool_id.0) {
        None
    } else {
        let pool = pools[pool_id.0];
        let initial = ordered_by(pool, asset, reserves).1;
        match asset_b_reserve_after(initial, amount) {
            None => None,
            Some(b_reserve) => stableswap_add_liquidity_shares(
                initial.0,
                initial.1,
                (initial.0 + amount) as u128,
                b_reserve as u128,
                pool.amplification as u128,
                config.precision,
                share_issuance,
            ),
        }
    }
}

/// Outcome of removing `amount` shares: the amounts of both assets paid out, or the first check
/// that fails.
pub open spec fn remove_liquidity_outcome(
    pools: Map<AssetId, PoolInfo>,
    pool_id: PoolId,
    amount: Balance,
    share_balance: Balance,
    reserves: (Balance, Balance),
    share_issuance: Balance,
    config: StablewapConfig,
) -> Result<(Balance, Balance), StablewapError> {
    if amount == 0 {
        Err(StablewapError::InvalidAssetAmount)
    } else if share_balance < amount {
        Err(StablewapError::InsufficientShares)
    } else if !pools.contains_key(pool_id.0) {
        Err(StablewapError::PoolNotFound)
    } else if (if share_issuance >= amount { share_issuance - amount } else { 0 }) < config.min_pool_liquidity {
        Err(StablewapError::InsufficientLiquidityRemaining)
    } else if share_issuance == 0 || share_of(reserves.0, amount, share_issuance) > u128::MAX || share_of(
        reserves.1,
        amount,
        share_issuance,
    ) > u128::MAX {
        Err(StablewapError::Overflow)
    } else {
        Ok(
            (
                share_of(reserves.0, amount, share_issuance) as u128,
                share_of(reserves.1, amount, share_issuance) as u128,
            ),
        )
    }
}

/// Outcome of selling `amount_in`, given the curve's `calculated_out`: the amount paid out and
/// the fee kept, or the first check that fails.
pub open spec fn sell_outcome(
    pools: Map<AssetId, PoolInfo>,
    pool_id: PoolId,
    asset_in: AssetId,
    asset_out: AssetId,
    amount_in: Balance,
    min_buy_amount: Balance,
    balance_in: Balance,
    config: StablewapConfig,
    calculated_out: Option<Balance>,
) -> Result<(Balance, Balance), StablewapError> {
    if amount_in < config.min_trading_limit {
        Err(StablewapError::InsufficientTradingAmount)
    } else if balance_in < amount_in {
        Err(StablewapError::InsufficientBalance)
    } else if !pools.contains_key(pool_id.0) {
        Err(StablewapError::PoolNotFound)
    } else if !(asset_in == pools[pool_id.0].assets.0 || asset_in == pools[pool_id.0].assets.1) {
        Err(StablewapError::AssetNotInPool)
    } else if !(asset_out == pools[pool_id.0].assets.0 || asset_out == pools[pool_id.0].assets.1) {
        Err(StablewapError::AssetNotInPool)
    } else {
        match calculated_out {
            None => Err(StablewapError::Overflow),
            Some(out) => {
                let fee = fee_amount(out, pools[pool_id.0].fee, false);
                if out - fee < min_buy_amount {
                    Err(StablewapError::BuyLimitNotReached)
                } else {
                    Ok(((out - fee) as u128, fee as u128))
                }
            },
        }
    }
}

/// Outcome of buying `amount_out`, given the curve's `calculated_in`: the amount to pay, fee
/// included, and the fee, or the first check that fails.
pub open spec fn buy_outcome(
    pools: Map<AssetId, PoolInfo>,
    pool_id: PoolId,
    asset_out: AssetId,
    asset_in: AssetId,
    amount_out: Balance,
    max_sell_amount: Balance,
    balance_in: Balance,
    reserve_out: Balance,
    config: StablewapConfig,
    calculated_in: Option<Balance>,
) -> Result<(Balance, Balance), StablewapError> {
    if amount_out < config.min_trading_limit {
        Err(StablewapError::InsufficientTradingAmount)
    } else if !pools.contains_key(pool_id.0) {
        Err(StablewapError::PoolNotFound)
    } else if !(asset_in == pools[pool_id.0].assets.0 || asset_in == pools[pool_id.0].assets.1) {
        Err(StablewapError::AssetNotInPool)
    } else if !(asset_out == pools[pool_id.0].assets.0 || asset_out == pools[pool_id.0].assets.1) {
        Err(StablewapError::AssetNotInPool)
    } else if reserve_out <= amount_out {
        Err(StablewapError::InsufficientLiquidity)
    } else {
        match calculated_in {
            None => Err(StablewapError::Overflow),
            Some(amount) => {
                let fee = fee_amount(amount, pools[pool_id.0].fee, true);
                if amount + fee > u128::MAX {
                    Err(StablewapError::Overflow)
                } else if amount + fee > max_sell_amount {
                    Err(StablewapError::SellLimitExceeded)
                } else if balance_in < amount + fee {
                    Err(StablewapError::InsufficientBalance)
                } else {
                    Ok(((amount + fee) as u128, fee as u128))
                }
            },
        }
    }
}

/// Storage of the pallet.
pub struct StablewapState {
    /// Existing pools, by share asset.
    pub pools: HashMap<AssetId, PoolInfo>,
}

impl StablewapState {
    /// Storage with no pools.
    pub fn new() -> (s: StablewapState)
        ensures
            s.pools@ == Map::<AssetId, PoolInfo>::empty(),
    {
        StablewapState { pools: HashMap::new() }
    }

    /// The pool named `pool_id`, if it exists.
    pub fn pool(&self, pool_id: PoolId) -> (r: Option<PoolInfo>)
        ensures
            r == (if self.pools@.contains_key(pool_id.0) {
                Some(self.pools@[pool_id.0])
            } else {
                None
            }),
    {
        match self.pools.get(&pool_id.0) {
            Some(p) => Some(*p),
            None => None,
        }
    }

    /// Creates a pool of `assets` with `share_asset` as its share asset (as the registry gave
    /// it), seeded by `who` with `initial_liquidity`, where `share_amount` is the curve's share
    /// amount for that liquidity. `balances` are `who`'s balances of the two assets, and
    /// `all_registered` whether both are registered.
    pub fn create_pool_with_shares(
        &mut self,
        who: AccountId,
        assets: (AssetId, AssetId),
        initial_liquidity: (Balance, Balance),
        amplification: u16,
        fee: Permill,
        config: &StablewapConfig,
        all_registered: bool,
        balances: (Balance, Balance),
        share_asset: AssetId,
        pool_account: AccountId,
        share_amount: Option<Balance>,
    ) -> (r: Result<(Balance, Vec<CurrencyAction>, StablewapEvent), StablewapError>)
        ensures
            match create_pool_outcome(
                old(self).pools@,
                assets,
                initial_liquidity,
                amplification,
                *config,
                all_registered,
                balances,
                share_asset,
                share_amount,
            ) {
                Err(e) => r == Err::<(Balance, Vec<CurrencyAction>, StablewapEvent), StablewapError>(e)
                    && final(self).pools@ == old(self).pools@,
                Ok(shares) => r is Ok && r->Ok_0.0 == shares && final(self).pools@ == old(self).pools@.insert(
                    share_asset,
                    PoolInfo { assets: PoolAssets::spec_new(assets), amplification, fee },
                ) && r->Ok_0.1@ == seq![
                    CurrencyAction::Transfer { asset: assets.0, from: who, to: pool_account, amount: initial_liquidity.0 },
                    CurrencyAction::Transfer { asset: assets.1, from: who, to: pool_account, amount: initial_liquidity.1 },
                    CurrencyAction::Deposit { asset: share_asset, who, amount: shares },
                ] && r->Ok_0.2 == StablewapEvent::PoolCreated {
                    id: PoolId(share_asset),
                    assets,
                    initial_liquidity,
                    amplification,
                },
            },
    {
        let pool_assets = PoolAssets::new(assets);
        if !pool_assets.is_valid() {
            return Err(StablewapError::SameAssets);
        }
        if amplification < config.amplification_min || amplification > config.amplification_max {
            return Err(StablewapError::InvalidAmplification);
        }
        if !all_registered {
            return Err(StablewapError::AssetNotRegistered);
        }
        let reserves = AssetAmounts(initial_liquidity.0, initial_liquidity.1);
        if reserves.0 == 0 || reserves.1 == 0 {
            return Err(StablewapError::InvalidInitialLiquidity);
        }
        if balances.0 < initial_liquidity.0 {
            return Err(StablewapError::BalanceTooLow);
        }
        if balances.1 < initial_liquidity.1 {
            return Err(StablewapError::BalanceTooLow);
        }
        if self.pools.contains_key(&share_asset) {
            return Err(StablewapError::PoolExists);
        }
        let shares = match share_amount {
            Some(s) => s,
            None => return Err(StablewapError::Overflow),
        };
        if shares < config.min_pool_liquidity {
            return Err(StablewapError::InsufficientLiquidity);
        }
        self.pools.insert(share_asset, PoolInfo { assets: pool_assets, amplification, fee });
        let mut actions: Vec<CurrencyAction> = Vec::new();
        actions.push(
            CurrencyAction::Transfer { asset: assets.0, from: who, to: pool_account, amount: initial_liquidity.0 },
        );
        actions.push(
            CurrencyAction::Transfer { asset: assets.1, from: who, to: pool_account, amount: initial_liquidity.1 },
        );
        actions.push(CurrencyAction::Deposit { asset: share_asset, who, amount: shares });
        let event = StablewapEvent::PoolCreated {
            id: PoolId(share_asset),
            assets,
            initial_liquidity,
            amplification,
        };
        Ok((shares, actions, event))
    }

    /// Creates a pool as `create_pool_with_shares` does, with the shares of the initial
    /// liquidity computed by the curve.
    pub fn create_pool(
        &mut self,
        who: AccountId,
        assets: (AssetId, AssetId),
        initial_liquidity: (Balance, Balance),
        amplification: u16,
        fee: Permill,
        config: &StablewapConfig,
        all_registered: bool,
        balances: (Balance, Balance),
        share_asset: AssetId,
        pool_account: AccountId,
    ) -> (r: Result<(Balance, Vec<CurrencyAction>, StablewapEvent), StablewapError>)
        ensures
            ({
                let share_amount = stableswap_add_liquidity_shares(
                    0,
                    0,
                    initial_liquidity.0,
                    initial_liquidity.1,
                    amplification as u128,
                    config.precision,
                    0,
                );
                match create_pool_outcome(
                    old(self).pools@,
                    assets,
                    initial_liquidity,
                    amplification,
                    *config,
                    all_registered,
                    balances,
                    share_asset,
                    share_amount,
                ) {
                    Err(e) => r == Err::<(Balance, Vec<CurrencyAction>, StablewapEvent), StablewapError>(e)
                        && final(self).pools@ == old(self).pools@,
                    Ok(shares) => r is Ok && r->Ok_0.0 == shares && final(self).pools@ == old(self).pools@.insert(
                        share_asset,
                        PoolInfo { assets: PoolAssets::spec_new(assets), amplification, fee },
                    ) && r->Ok_0.1@ == seq![
                        CurrencyAction::Transfer { asset: assets.0, from: who, to: pool_account, amount: initial_liquidity.0 },
                        CurrencyAction::Transfer { asset: assets.1, from: who, to: pool_account, amount: initial_liquidity.1 },
                        CurrencyAction::Deposit { asset: share_asset, who, amount: shares },
                    ] && r->Ok_0.2 == StablewapEvent::PoolCreated {
                        id: PoolId(share_asset),
                        assets,
                        initial_liquidity,
                        amplification,
                    },
                }
            }),
    {
        let share_amount = calculate_add_liquidity_shares(
            (0, 0),
            initial_liquidity,
            amplification as u128,
            config.precision,
            0,
        );
        self.create_pool_with_shares(
            who,
            assets,
            initial_liquidity,
            amplification,
            fee,
            config,
            all_registered,
            balances,
            share_asset,
            pool_account,
            share_amount,
        )
    }

    /// The shares that adding `amount` of `asset` issues by the curve, when the pool exists
    /// and the reserve of the other asset can be computed.
    pub fn add_liquidity_shares(
        &self,
        pool_id: PoolId,
        asset: AssetId,
        amount: Balance,
        reserves: (Balance, Balance),
        share_issuance: Balance,
        config: &StablewapConfig,
    ) -> (r: Option<Balance>)
        ensures
            r == add_liquidity_shares(self.pools@, pool_id, asset, amount, reserves, share_issuance, *config),
    {
        let pool = match self.pools.get(&pool_id.0) {
            Some(p) => *p,
            None => return None,
        };
        let initial = if asset == pool.assets.0 {
            (reserves.0, reserves.1)
        } else {
            (reserves.1, reserves.0)
        };
        let updated_a = match initial.0.checked_add(amount) {
            Some(u) => u,
            None => return None,
        };
        let b_reserve = match calculate_asset_b_reserve(initial.0, initial.1, updated_a) {
            Some(b) => b,
            None => return None,
        };
        calculate_add_liquidity_shares(
            initial,
            (updated_a, b_reserve),
            pool.amplification as u128,
            config.precision,
            share_issuance,
        )
    }

    /// Adds `amount` of `asset` to a pool together with the amount of its other asset that
    /// keeps the ratio of the reserves, where `share_amount` is the curve's share amount.
    /// `asset_balance` and `other_balance` are `who`'s balances of `asset` and of the other pool
    /// asset, and `reserves` the pool's reserves in the order of its assets.
    pub fn add_liquidity_with_shares(
        &self,
        who: AccountId,
        pool_id: PoolId,
        asset: AssetId,
        amount: Balance,
        asset_balance: Balance,
        other_balance: Balance,
        reserves: (Balance, Balance),
        pool_account: AccountId,
        config: &StablewapConfig,
        share_amount: Option<Balance>,
    ) -> (r: Result<(Balance, Vec<CurrencyAction>, StablewapEvent), StablewapError>)
        ensures
            match add_liquidity_outcome(
                self.pools@,
                pool_id,
                asset,
                amount,
                asset_balance,
                other_balance,
                reserves,
                *config,
                share_amount,
            ) {
                Err(e) => r == Err::<(Balance, Vec<CurrencyAction>, StablewapEvent), StablewapError>(e),
                Ok((shares, b_amount)) => r is Ok && r->Ok_0.0 == shares && ({
                    let assets = ordered_by(self.pools@[pool_id.0], asset, reserves).0;
                    &&& r->Ok_0.1@ == seq![
                        CurrencyAction::Deposit { asset: pool_id.0, who, amount: shares },
                        CurrencyAction::Transfer { asset: assets.0, from: who, to: pool_account, amount },
                        CurrencyAction::Transfer { asset: assets.1, from: who, to: pool_account, amount: b_amount },
                    ]
                    &&& r->Ok_0.2 == StablewapEvent::LiquidityAdded {
                        id: pool_id,
                        who,
                        assets,
                        amounts: (amount, b_amount),
                    }
                }),
            },
    {
        if amount < config.min_trading_limit {
            return Err(StablewapError::InsufficientTradingAmount);
        }
        if asset_balance < amount {
            return Err(StablewapError::InsufficientBalance);
        }
        let pool = match self.pools.get(&pool_id.0) {
            Some(p) => *p,
            None => return Err(StablewapError::PoolNotFound),
        };
        if !pool.assets.contains(asset) {
            return Err(StablewapError::AssetNotInPool);
        }
        let (assets, initial) = if asset == pool.assets.0 {
            ((asset, pool.assets.1), (reserves.0, reserves.1))
        } else {
            ((asset, pool.assets.0), (reserves.1, reserves.0))
        };
        let updated_a = match initial.0.checked_add(amount) {
            Some(u) => u,
            None => return Err(StablewapError::Overflow),
        };
        let b_reserve = match calculate_asset_b_reserve(initial.0, initial.1, updated_a) {
            Some(b) => b,
            None => return Err(StablewapError::Overflow),
        };
        let b_amount = match b_reserve.checked_sub(initial.1) {
            Some(b) => b,
            None => return Err(StablewapError::Underflow),
        };
        if other_balance < b_amount {
            return Err(StablewapError::InsufficientBalance);
        }
        let shares = match share_amount {
            Some(s) => s,
            None => return Err(StablewapError::Overflow),
        };
        let mut actions: Vec<CurrencyAction> = Vec::new();
        actions.push(CurrencyAction::Deposit { asset: pool_id.0, who, amount: shares });
        actions.push(CurrencyAction::Transfer { asset: assets.0, from: who, to: pool_account, amount });
        actions.push(CurrencyAction::Transfer { asset: assets.1, from: who, to: pool_account, amount: b_amount });
        Ok((shares, actions, StablewapEvent::LiquidityAdded { id: pool_id, who, assets, amounts: (amount, b_amount) }))
    }

    /// Adds liquidity as `add_liquidity_with_shares` does, with the shares computed by the
    /// curve from the pool's reserves before and after and the share issuance.
    pub fn add_liquidity(
        &self,
        who: AccountId,
        pool_id: PoolId,
        asset: AssetId,
        amount: Balance,
        asset_balance: Balance,
        other_balance: Balance,
        reserves: (Balance, Balance),
        share_issuance: Balance,
        pool_account: AccountId,
        config: &StablewapConfig,
    ) -> (r: Result<(Balance, Vec<CurrencyAction>, StablewapEvent), StablewapError>)
        ensures
            match add_liquidity_outcome(
                self.pools@,
                pool_id,
                asset,
                amount,
                asset_balance,
                other_balance,
                reserves,
                *config,
                add_liquidity_shares(self.pools@, pool_id, asset, amount, reserves, share_issuance, *config),
            ) {
                Err(e) => r == Err::<(Balance, Vec<CurrencyAction>, StablewapEvent), StablewapError>(e),
                Ok((shares, b_amount)) => r is Ok && r->Ok_0.0 == shares && ({
                    let assets = ordered_by(self.pools@[pool_id.0], asset, reserves).0;
                    &&& r->Ok_0.1@ == seq![
                        CurrencyAction::Deposit { asset: pool_id.0, who, amount: shares },
                        CurrencyAction::Transfer { asset: assets.0, from: who, to: pool_account, amount },
                        CurrencyAction::Transfer { asset: assets.1, from: who, to: pool_account, amount: b_amount },
                    ]
                    &&& r->Ok_0.2 == StablewapEvent::LiquidityAdded {
                        id: pool_id,
                        who,
                        assets,
                        amounts: (amount, b_amount),
                    }
                }),
            },
    {
        let share_amount = self.add_liquidity_shares(pool_id, asset, amount, reserves, share_issuance, config);
        self.add_liquidity_with_shares(
            who,
            pool_id,
            asset,
            amount,
            asset_balance,
            other_balance,
            reserves,
            pool_account,
            config,
            share_amount,
        )
    }

    /// Burns `amount` of `who`'s shares of a pool and pays out the corresponding part of both
    /// reserves. `share_balance` is `who`'s balance of shares and `reserves` the pool's
    /// reserves in the order of its assets.
    pub fn remove_liquidity(
        &self,
        who: AccountId,
        pool_id: PoolId,
        amount: Balance,
        share_balance: Balance,
        reserves: (Balance, Balance),
        share_issuance: Balance,
        pool_account: AccountId,
        config: &StablewapConfig,
    ) -> (r: Result<((Balance, Balance), Vec<CurrencyAction>, StablewapEvent), StablewapError>)
        ensures
            match remove_liquidity_outcome(
                self.pools@,
                pool_id,
                amount,
                share_balance,
                reserves,
                share_issuance,
                *config,
            ) {
                Err(e) => r == Err::<((Balance, Balance), Vec<CurrencyAction>, StablewapEvent), StablewapError>(e),
                Ok(amounts) => r is Ok && r->Ok_0.0 == amounts && ({
                    let assets = self.pools@[pool_id.0].assets;
                    &&& r->Ok_0.1@ == seq![
                        CurrencyAction::Withdraw { asset: pool_id.0, who, amount },
                        CurrencyAction::Transfer { asset: assets.0, from: pool_account, to: who, amount: amounts.0 },
                        CurrencyAction::Transfer { asset: assets.1, from: pool_account, to: who, amount: amounts.1 },
                    ]
                    &&& r->Ok_0.2 == StablewapEvent::LiquidityRemoved { id: pool_id, who, shares: amount, amounts }
                }),
            },
    {
        if amount == 0 {
            return Err(StablewapError::InvalidAssetAmount);
        }
        if share_balance < amount {
            return Err(StablewapError::InsufficientShares);
        }
        let pool = match self.pools.get(&pool_id.0) {
            Some(p) => *p,
            None => return Err(StablewapError::PoolNotFound),
        };
        if share_issuance.saturating_sub(amount) < config.min_pool_liquidity {
            return Err(StablewapError::InsufficientLiquidityRemaining);
        }
        let amounts = match calculate_remove_liquidity_amounts(reserves, amount, share_issuance) {
            Some(a) => a,
            None => return Err(StablewapError::Overflow),
        };
        let mut actions: Vec<CurrencyAction> = Vec::new();
        actions.push(CurrencyAction::Withdraw { asset: pool_id.0, who, amount });
        actions.push(
            CurrencyAction::Transfer { asset: pool.assets.0, from: pool_account, to: who, amount: amounts.0 },
        );
        actions.push(
            CurrencyAction::Transfer { asset: pool.assets.1, from: pool_account, to: who, amount: amounts.1 },
        );
        Ok((amounts, actions, StablewapEvent::LiquidityRemoved { id: pool_id, who, shares: amount, amounts }))
    }

    /// Sells `amount_in` of `asset_in` for `asset_out`, where `calculated_out` is the curve's
    /// amount out before the fee. `balance_in` is `who`'s balance of `asset_in`.
    pub fn sell_with_amount_out(
        &self,
        who: AccountId,
        pool_id: PoolId,
        asset_in: AssetId,
        asset_out: AssetId,
        amount_in: Balance,
        min_buy_amount: Balance,
        balance_in: Balance,
        pool_account: AccountId,
        config: &StablewapConfig,
        calculated_out: Option<Balance>,
    ) -> (r: Result<(Balance, Vec<CurrencyAction>, StablewapEvent), StablewapError>)
        ensures
            match sell_outcome(
                self.pools@,
                pool_id,
                asset_in,
                asset_out,
                amount_in,
                min_buy_amount,
                balance_in,
                *config,
                calculated_out,
            ) {
                Err(e) => r == Err::<(Balance, Vec<CurrencyAction>, StablewapEvent), StablewapError>(e),
                Ok((amount_out, fee)) => r is Ok && r->Ok_0.0 == amount_out && r->Ok_0.1@ == trade_actions(
                    who,
                    pool_account,
                    asset_in,
                    asset_out,
                    amount_in,
                    amount_out,
                ) && r->Ok_0.2 == StablewapEvent::SellExecuted {
                    who,
                    asset_in,
                    asset_out,
                    amount_in,
                    amount_out,
                    fee,
                },
            },
    {
        if amount_in < config.min_trading_limit {
            return Err(StablewapError::InsufficientTradingAmount);
        }
        if balance_in < amount_in {
            return Err(StablewapError::InsufficientBalance);
        }
        let pool = match self.pools.get(&pool_id.0) {
            Some(p) => *p,
            None => return Err(StablewapError::PoolNotFound),
        };
        if !pool.assets.contains(asset_in) {
            return Err(StablewapError::AssetNotInPool);
        }
        if !pool.assets.contains(asset_out) {
            return Err(StablewapError::AssetNotInPool);
        }
        let amount_out = match calculated_out {
            Some(a) => a,
            None => return Err(StablewapError::Overflow),
        };
        let fee_amount = calculate_fee_amount(amount_out, pool.fee, false);
        let amount_out = amount_out - fee_amount;
        if amount_out < min_buy_amount {
            return Err(StablewapError::BuyLimitNotReached);
        }
        let mut actions: Vec<CurrencyAction> = Vec::new();
        actions.push(CurrencyAction::Transfer { asset: asset_in, from: who, to: pool_account, amount: amount_in });
        actions.push(CurrencyAction::Transfer { asset: asset_out, from: pool_account, to: who, amount: amount_out });
        Ok(
            (
                amount_out,
                actions,
                StablewapEvent::SellExecuted { who, asset_in, asset_out, amount_in, amount_out, fee: fee_amount },
            ),
        )
    }

    /// Sells as `sell_with_amount_out` does, with the amount out computed by the curve from the
    /// pool's reserves of the two assets.
    pub fn sell(
        &self,
        who: AccountId,
        pool_id: PoolId,
        asset_in: AssetId,
        asset_out: AssetId,
        amount_in: Balance,
        min_buy_amount: Balance,
        balance_in: Balance,
        reserve_in: Balance,
        reserve_out: Balance,
        pool_account: AccountId,
        config: &StablewapConfig,
    ) -> (r: Result<(Balance, Vec<CurrencyAction>, StablewapEvent), StablewapError>)
        ensures
            match sell_outcome(
                self.pools@,
                pool_id,
                asset_in,
                asset_out,
                amount_in,
                min_buy_amount,
                balance_in,
                *config,
                if self.pools@.contains_key(pool_id.0) {
                    stableswap_out_given_in(
                        reserve_in,
                        reserve_out,
                        amount_in,
                        self.pools@[pool_id.0].amplification as u128,
                        config.precision,
                    )
                } else {
                    None
                },
            ) {
                Err(e) => r == Err::<(Balance, Vec<CurrencyAction>, StablewapEvent), StablewapError>(e),
                Ok((amount_out, fee)) => r is Ok && r->Ok_0.0 == amount_out && r->Ok_0.1@ == trade_actions(
                    who,
                    pool_account,
                    asset_in,
                    asset_out,
                    amount_in,
                    amount_out,
                ) && r->Ok_0.2 == StablewapEvent::SellExecuted {
                    who,
                    asset_in,
                    asset_out,
                    amount_in,
                    amount_out,
                    fee,
                },
            },
    {
        let calculated_out = match self.pools.get(&pool_id.0) {
            Some(p) => calculate_out_given_in(
                reserve_in,
                reserve_out,
                amount_in,
                p.amplification as u128,
                config.precision,
            ),
            None => None,
        };
        self.sell_with_amount_out(
            who,
            pool_id,
            asset_in,
            asset_out,
            amount_in,
            min_buy_amount,
            balance_in,
            pool_account,
            config,
            calculated_out,
        )
    }

    /// Buys `amount_out` of `asset_out` for `asset_in`, where `calculated_in` is the curve's
    /// amount in before the fee. `balance_in` is `who`'s balance of `asset_in` and
    /// `reserve_out` the pool's reserve of `asset_out`.
    pub fn buy_with_amount_in(
        &self,
        who: AccountId,
        pool_id: PoolId,
        asset_out: AssetId,
        asset_in: AssetId,
        amount_out: Balance,
        max_sell_amount: Balance,
        balance_in: Balance,
        reserve_out: Balance,
        pool_account: AccountId,
        config: &StablewapConfig,
        calculated_in: Option<Balance>,
    ) -> (r: Result<(Balance, Vec<CurrencyAction>, StablewapEvent), StablewapError>)
        ensures
            match buy_outcome(
                self.pools@,
                pool_id,
                asset_out,
                asset_in,
                amount_out,
                max_sell_amount,
                balance_in,
                reserve_out,
                *config,
                calculated_in,
            ) {
                Err(e) => r == Err::<(Balance, Vec<CurrencyAction>, StablewapEvent), StablewapError>(e),
                Ok((amount_in, fee)) => r is Ok && r->Ok_0.0 == amount_in && r->Ok_0.1@ == trade_actions(
                    who,
                    pool_account,
                    asset_in,
                    asset_out,
                    amount_in,
                    amount_out,
                ) && r->Ok_0.2 == StablewapEvent::BuyExecuted {
                    who,
                    asset_in,
                    asset_out,
                    amount_in,
                    amount_out,
                    fee,
                },
            },
    {
        if amount_out < config.min_trading_limit {
            return Err(StablewapError::InsufficientTradingAmount);
        }
        let pool = match self.pools.get(&pool_id.0) {
            Some(p) => *p,
            None => return Err(StablewapError::PoolNotFound),
        };
        if !pool.assets.contains(asset_in) {
            return Err(StablewapError::AssetNotInPool);
        }
        if !pool.assets.contains(asset_out) {
            return Err(StablewapError::AssetNotInPool);
        }
        if reserve_out <= amount_out {
            return Err(StablewapError::InsufficientLiquidity);
        }
        let amount_in = match calculated_in {
            Some(a) => a,
            None => return Err(StablewapError::Overflow),
        };
        let fee_amount = calculate_fee_amount(amount_in, pool.fee, true);
        let amount_in = match amount_in.checked_add(fee_amount) {
            Some(a) => a,
            None => return Err(StablewapError::Overflow),
        };
        if amount_in > max_sell_amount {
            return Err(StablewapError::SellLimitExceeded);
        }
        if balance_in < amount_in {
            return Err(StablewapError::InsufficientBalance);
        }
        let mut actions: Vec<CurrencyAction> = Vec::new();
        actions.push(CurrencyAction::Transfer { asset: asset_in, from: who, to: pool_account, amount: amount_in });
        actions.push(CurrencyAction::Transfer { asset: asset_out, from: pool_account, to: who, amount: amount_out });
        Ok(
            (
                amount_in,
                actions,
                StablewapEvent::BuyExecuted { who, asset_in, asset_out, amount_in, amount_out, fee: fee_amount },
            ),
        )
    }

    /// Buys as `buy_with_amount_in` does, with the amount in computed by the curve from the
    /// pool's reserves of the two assets.
    pub fn buy(
        &self,
        who: AccountId,
        pool_id: PoolId,
        asset_out: AssetId,
        asset_in: AssetId,
        amount_out: Balance,
        max_sell_amount: Balance,
        balance_in: Balance,
        reserve_in: Balance,
        reserve_out: Balance,
        pool_account: AccountId,
        config: &StablewapConfig,
    ) -> (r: Result<(Balance, Vec<CurrencyAction>, StablewapEvent), StablewapError>)
        ensures
            match buy_outcome(
                self.pools@,
                pool_id,
                asset_out,
                asset_in,
                amount_out,
                max_sell_amount,
                balance_in,
                reserve_out,
                *config,
                if self.pools@.contains_key(pool_id.0) {
                    stableswap_in_given_out(
                        reserve_in,
                        reserve_out,
                        amount_out,
                        self.pools@[pool_id.0].amplification as u128,
                        config.precision,
                    )
                } else {
                    None
                },
            ) {
                Err(e) => r == Err::<(Balance, Vec<CurrencyAction>, StablewapEvent), StablewapError>(e),
                Ok((amount_in, fee)) => r is Ok && r->Ok_0.0 == amount_in && r->Ok_0.1@ == trade_actions(
                    who,
                    pool_account,
                    asset_in,
                    asset_out,
                    amount_in,
                    amount_out,
                ) && r->Ok_0.2 == StablewapEvent::BuyExecuted {
                    who,
                    asset_in,
                    asset_out,
                    amount_in,
                    amount_out,
                    fee,
                },
            },
    {
        let calculated_in = match self.pools.get(&pool_id.0) {
            Some(p) => calculate_in_given_out(
                reserve_in,
                reserve_out,
                amount_out,
                p.amplification as u128,
                config.precision,
            ),
            None => None,
        };
        self.buy_with_amount_in(
            who,
            pool_id,
            asset_out,
            asset_in,
            amount_out,
            max_sell_amount,
            balance_in,
            reserve_out,
            pool_account,
            config,
            calculated_in,
        )
    }
}


/// A sell pays out the curve's amount less the fee, and the fee is the pool's fee of the
/// curve's amount, rounded down.
pub proof fn lemma_sell_fee_taken_from_amount_out(
    pools: Map<AssetId, PoolInfo>,
    pool_id: PoolId,
    asset_in: AssetId,
    asset_out: AssetId,
    amount_in: Balance,
    min_buy_amount: Balance,
    balance_in: Balance,
    config: StablewapConfig,
    calculated_out: Option<Balance>,
)
    requires
        sell_outcome(pools, pool_id, asset_in, asset_out, amount_in, min_buy_amount, balance_in, config, calculated_out) is Ok,
        pools.contains_key(pool_id.0) ==> pools[pool_id.0].fee.parts() <= 1_000_000,
    ensures
        ({
            let (amount_out, fee) = sell_outcome(
                pools,
                pool_id,
                asset_in,
                asset_out,
                amount_in,
                min_buy_amount,
                balance_in,
                config,
                calculated_out,
            )->Ok_0;
            &&& calculated_out matches Some(out) && amount_out + fee == out
            &&& fee == fee_amount(calculated_out->Some_0, pools[pool_id.0].fee, false)
            &&& amount_out >= min_buy_amount
        }),
{
    let out = calculated_out->Some_0;
    let p = pools[pool_id.0].fee.parts();
    assert(out * p / 1_000_000 <= out) by (nonlinear_arith)
        requires
            0 <= out,
            0 <= p <= 1_000_000,
    {
        assert(out * p <= out * 1_000_000);
    }
}

/// A buy asks for the curve's amount plus the fee, and the fee is the pool's fee of the
/// curve's amount, rounded up.
pub proof fn lemma_buy_fee_added_to_amount_in(
    pools: Map<AssetId, PoolInfo>,
    pool_id: PoolId,
    asset_out: AssetId,
    asset_in: AssetId,
    amount_out: Balance,
    max_sell_amount: Balance,
    balance_in: Balance,
    reserve_out: Balance,
    config: StablewapConfig,
    calculated_in: Option<Balance>,
)
    requires
        buy_outcome(
            pools,
            pool_id,
            asset_out,
            asset_in,
            amount_out,
            max_sell_amount,
            balance_in,
            reserve_out,
            config,
            calculated_in,
        ) is Ok,
    ensures
        ({
            let (amount_in, fee) = buy_outcome(
                pools,
                pool_id,
                asset_out,
                asset_in,
                amount_out,
                max_sell_amount,
                balance_in,
                reserve_out,
                config,
                calculated_in,
            )->Ok_0;
            &&& calculated_in matches Some(c) && amount_in == c + fee
            &&& fee == fee_amount(calculated_in->Some_0, pools[pool_id.0].fee, true)
            &&& amount_in <= max_sell_amount
            &&& amount_in <= balance_in
            &&& amount_out < reserve_out
        }),
{
}

/// Adding liquidity keeps the ratio of the reserves: the new reserve of the other asset is the
/// largest whose ratio to the new reserve of `asset` does not exceed the old ratio.
pub proof fn lemma_add_liquidity_keeps_ratio(initial: (Balance, Balance), amount: Balance)
    requires
        asset_b_reserve_after(initial, amount) is Some,
    ensures
        ({
            let b = asset_b_reserve_after(initial, amount)->Some_0;
            let a = initial.0 + amount;
            &&& b * initial.0 <= a * initial.1
            &&& a * initial.1 < (b + 1) * initial.0
            &&& b >= initial.1
        }),
{
    let a: int = initial.0 + amount;
    let x: int = initial.0 as int;
    let y: int = initial.1 as int;
    let b = (a * y) / x;
    assert(b * x <= a * y && a * y < (b + 1) * x) by (nonlinear_arith)
        requires
            x > 0,
            a * y >= 0,
            b == (a * y) / x,
    ;
    assert(b >= y) by (nonlinear_arith)
        requires
            x > 0,
            a >= x,
            y >= 0,
            b == (a * y) / x,
    {
        assert(a * y >= x * y);
        assert((x * y) / x == y);
    }
}

/// Removing liquidity pays out of each reserve the part that the burnt shares are of the
/// issuance, rounded down, and never more than the reserve while the shares do not exceed the
/// issuance.
pub proof fn lemma_remove_liquidity_is_proportional(
    pools: Map<AssetId, PoolInfo>,
    pool_id: PoolId,
    amount: Balance,
    share_balance: Balance,
    reserves: (Balance, Balance),
    share_issuance: Balance,
    config: StablewapConfig,
)
    requires
        remove_liquidity_outcome(pools, pool_id, amount, share_balance, reserves, share_issuance, config) is Ok,
    ensures
        ({
            let amounts = remove_liquidity_outcome(
                pools,
                pool_id,
                amount,
                share_balance,
                reserves,
                share_issuance,
                config,
            )->Ok_0;
            &&& amounts.0 * share_issuance <= reserves.0 * amount
            &&& amounts.1 * share_issuance <= reserves.1 * amount
            &&& amount <= share_issuance ==> amounts.0 <= reserves.0 && amounts.1 <= reserves.1
        }),
{
    let i = share_issuance as int;
    let s = amount as int;
    assert forall|r: int| 0 <= r implies (#[trigger] ((r * s) / i)) * i <= r * s && (s <= i ==> (r * s) / i <= r) by {
        assert(((r * s) / i) * i <= r * s) by (nonlinear_arith)
            requires
                i > 0,
                r * s >= 0,
        ;
        if s <= i {
            assert((r * s) / i <= r) by (nonlinear_arith)
                requires
                    i > 0,
                    0 <= r,
                    0 <= s <= i,
            {
                assert(r * s <= r * i);
            }
        }
    }
    assert(share_of(reserves.0, amount, share_issuance) == (reserves.0 * s) / i);
    assert(share_of(reserves.1, amount, share_issuance) == (reserves.1 * s) / i);
}

/// Adding liquidity in a pool's second asset with reserves `(a, b)` issues the shares and asks
/// for the other amount that adding it in the pool's first asset with the reserves swapped,
/// `(b, a)`, does: what counts is the reserve of the added asset and the reserve of the other.
pub proof fn lemma_add_liquidity_is_symmetric_in_the_assets(
    pools: Map<AssetId, PoolInfo>,
    pool_id: PoolId,
    amount: Balance,
    asset_balance: Balance,
    other_balance: Balance,
    a: Balance,
    b: Balance,
    share_issuance: Balance,
    config: StablewapConfig,
    share_amount: Option<Balance>,
)
    requires
        pools.contains_key(pool_id.0),
        pools[pool_id.0].assets.0 != pools[pool_id.0].assets.1,
    ensures
        ({
            let first = pools[pool_id.0].assets.0;
            let second = pools[pool_id.0].assets.1;
            &&& add_liquidity_shares(pools, pool_id, second, amount, (a, b), share_issuance, config)
                == add_liquidity_shares(pools, pool_id, first, amount, (b, a), share_issuance, config)
            &&& add_liquidity_outcome(
                pools,
                pool_id,
                second,
                amount,
                asset_balance,
                other_balance,
                (a, b),
                config,
                share_amount,
            ) == add_liquidity_outcome(
                pools,
                pool_id,
                first,
                amount,
                asset_balance,
                other_balance,
                (b, a),
                config,
                share_amount,
            )
        }),
{
}

/// Adding `amount` of a pool's first asset to reserves `(a, b)` raises the other reserve in the
/// same ratio, to `(a + amount) * b / a` rounded down, asks for the difference of the other
/// asset, and issues the curve's shares for the reserves moving from `(a, b)` to the raised ones.
pub proof fn lemma_add_liquidity_keeps_the_reserve_ratio_through_the_curve(
    pools: Map<AssetId, PoolInfo>,
    pool_id: PoolId,
    amount: Balance,
    asset_balance: Balance,
    other_balance: Balance,
    a: Balance,
    b: Balance,
    share_issuance: Balance,
    config: StablewapConfig,
    share_amount: Option<Balance>,
)
    requires
        pools.contains_key(pool_id.0),
    ensures
        ({
            let pool = pools[pool_id.0];
            let fits = a != 0 && a + amount <= u128::MAX && (a + amount) * b / (a as int) <= u128::MAX;
            let raised = (a + amount) * b / (a as int);
            &&& add_liquidity_shares(pools, pool_id, pool.assets.0, amount, (a, b), share_issuance, config)
                == if fits {
                stableswap_add_liquidity_shares(
                    a,
                    b,
                    (a + amount) as u128,
                    raised as u128,
                    pool.amplification as u128,
                    config.precision,
                    share_issuance,
                )
            } else {
                None
            }
            &&& add_liquidity_outcome(
                pools,
                pool_id,
                pool.assets.0,
                amount,
                asset_balance,
                other_balance,
                (a, b),
                config,
                share_amount,
            ) matches Ok((shares, other_amount)) ==> {
                &&& fits
                &&& share_amount == Some(shares)
                &&& other_amount == raised - b
                &&& amount >= config.min_trading_limit
                &&& asset_balance >= amount
                &&& other_balance >= other_amount
            }
        }),
{
}

} // verus!
