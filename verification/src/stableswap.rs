//! Stableswap pools of two to five assets.
//!
//! A pool is created by the pool-creating origin for registered assets, without liquidity; the
//! first `add_liquidity` seeds it. Liquidity may be added in any of the pool's assets and is
//! removed by burning shares. Trades follow the stableswap curve, less a trade fee: for sells the
//! fee is taken from the amount leaving the pool, for buys it is added to the amount entering it.
//!
//! The curve is not computed here, whatever the pool's size: the functions that need it take its
//! result as an argument. Balances and the asset registry belong to other pallets: what
//! the functions read from them is passed in, and the transfers to make are returned as
//! [`CurrencyAction`]s.
use vstd::prelude::*;
use vstd::relations::{sorted_by, total_ordering};

use std::collections::HashMap;

use crate::arithmetic::{multiply_by_rational_floor, Permill};
use crate::constants::{AccountId, Balance};
use crate::currency::{trade_actions, AssetId, CurrencyAction};
use crate::hydra_math::share_of;
use crate::stablewap::fee_amount;

verus! {

broadcast use {vstd::std_specs::hash::group_hash_axioms, vstd::seq_lib::group_to_multiset_ensures};

/// Most assets a pool may have.
pub const MAX_ASSETS_IN_POOL: u32 = 5;

/// The order of asset ids.
pub open spec fn asset_order() -> spec_fn(AssetId, AssetId) -> bool {
    |a: AssetId, b: AssetId| a <= b
}

/// A pool's parameters.
#[derive(Debug)]
pub struct PoolInfo {
    /// The pool's assets, ordered by id.
    pub assets: Vec<AssetId>,
    pub amplification: u16,
    pub trade_fee: Permill,
    pub withdraw_fee: Permill,
}

/// Liquidity of one asset added to a pool.
#[derive(Clone, Copy, Debug, PartialEq, Eq)]
pub struct AssetLiquidity {
    pub asset_id: AssetId,
    pub amount: Balance,
}

/// The pallet's configuration constants.
#[derive(Clone, Copy, Debug)]
pub struct StableswapConfig {
    /// Fewest shares a pool or a liquidity position may have.
    pub min_pool_liquidity: Balance,
    /// Smallest amount of a trade or of added liquidity.
    pub min_trading_limit: Balance,
    /// Smallest amplification a pool may have.
    pub amplification_min: u16,
    /// Largest amplification a pool may have.
    pub amplification_max: u16,
}

/// Errors of the pallet, arithmetic overflow and underflow included.
#[derive(Clone, Copy, Debug, PartialEq, Eq)]
pub enum StableswapError {
    SameAssets,
    MaxAssetsExceeded,
    MinAssets,
    PoolNotFound,
    PoolExists,
    AssetNotInPool,
    AssetNotRegistered,
    InvalidAssetAmount,
    InsufficientBalance,
    InsufficientShares,
    InsufficientLiquidity,
    InsufficientLiquidityRemaining,
    InsufficientTradingAmount,
    BuyLimitNotReached,
    SellLimitExceeded,
    InvalidInitialLiquidity,
    BalanceTooLow,
    InvalidAmplification,
    InsufficientShareBalance,
    Overflow,
    Underflow,
}

/// Events of the pallet.
#[derive(Debug)]
pub enum StableswapEvent {
    PoolCreated {
        pool_id: AssetId,
        assets: Vec<AssetId>,
        amplification: u16,
        trade_fee: Permill,
        withdraw_fee: Permill,
    },
    LiquidityAdded { pool_id: AssetId, who: AccountId, shares: Balance, assets: Vec<AssetLiquidity> },
    LiquidityRemoved { pool_id: AssetId, who: AccountId, shares: Balance, amounts: Vec<AssetLiquidity> },
    SellExecuted {
        who: AccountId,
        pool_id: AssetId,
        asset_in: AssetId,
        asset_out: AssetId,
        amount_in: Balance,
        amount_out: Balance,
        fee: Balance,
    },
    BuyExecuted {
        who: AccountId,
        pool_id: AssetId,
        asset_in: AssetId,
        asset_out: AssetId,
        amount_in: Balance,
        amount_out: Balance,
        fee: Balance,
    },
}

proof fn lemma_asset_order_is_total()
    ensures
        total_ordering(asset_order()),
{
}

/// Whether a sequence of asset ids is strictly increasing.
pub open spec fn strictly_increasing(s: Seq<AssetId>) -> bool {
    forall|i: int, j: int| 0 <= i < j < s.len() ==> s[i] < s[j]
}

/// `assets` ordered by id.
pub fn sort_assets(assets: &Vec<AssetId>) -> (r: Vec<AssetId>)
    ensures
        r@ == assets@.sort_by(asset_order()),
        sorted_by(r@, asset_order()),
        r@.to_multiset() == assets@.to_multiset(),
{
    let mut sorted: Vec<AssetId> = Vec::new();
    let mut i: usize = 0;
    while i < assets.len()
        invariant
            i <= assets.len(),
            sorted_by(sorted@, asset_order()),
            sorted@.to_multiset() == assets@.take(i as int).to_multiset(),
        decreases assets.len() - i,
    {
        let x = assets[i];
        let mut j: usize = 0;
        while j < sorted.len() && sorted[j] <= x
            invariant
                j <= sorted.len(),
                forall|k: int| 0 <= k < j ==> sorted@[k] <= x,
            decreases sorted.len() - j,
        {
            j += 1;
        }
        let ghost before = sorted@;
        proof {
            if j < before.len() {
                assert forall|k: int| j <= k < before.len() implies before[k] > x by {
                    assert(asset_order()(before[j as int], before[k]) || k == j);
                }
            }
        }
        sorted.insert(j, x);
        proof {
            assert forall|a: int, b: int| 0 <= a < b < sorted@.len() implies #[trigger] asset_order()(
                sorted@[a],
                sorted@[b],
            ) by {
                if b < j {
                    assert(asset_order()(before[a], before[b]));
                } else if b == j {
                } else if a < j {
                    assert(sorted@[b] == before[b - 1]);
                } else if a == j {
                    assert(sorted@[b] == before[b - 1]);
                } else {
                    assert(asset_order()(before[a - 1], before[b - 1]));
                }
            }
            assert(assets@.take(i + 1) =~= assets@.take(i as int).push(x));
        }
        i += 1;
    }
    proof {
        assert(assets@.take(assets@.len() as int) =~= assets@);
        lemma_asset_order_is_total();
        assets@.lemma_sort_by_ensures(asset_order());
        vstd::seq_lib::lemma_sorted_unique(sorted@, assets@.sort_by(asset_order()), asset_order());
    }
    sorted
}

/// Whether an ordered sequence of asset ids holds an id twice.
pub fn has_duplicates(sorted: &Vec<AssetId>) -> (r: bool)
    requires
        sorted_by(sorted@, asset_order()),
    ensures
        r == !sorted@.no_duplicates(),
        !r ==> strictly_increasing(sorted@),
{
    let mut i: usize = 1;
    while i < sorted.len()
        invariant
            1 <= i,
            sorted_by(sorted@, asset_order()),
            forall|k: int| 1 <= k < i && k < sorted@.len() ==> sorted@[k - 1] != #[trigger] sorted@[k],
        decreases sorted.len() - i,
    {
        if sorted[i - 1] == sorted[i] {
            return true;
        }
        i += 1;
    }
    proof {
        assert forall|a: int, b: int| 0 <= a < b < sorted@.len() implies sorted@[a] < sorted@[b] by {
            assert(asset_order()(sorted@[a], sorted@[a + 1]));
            assert(sorted@[a] != sorted@[a + 1]);
            if a + 1 < b {
                assert(asset_order()(sorted@[a + 1], sorted@[b]));
            }
        }
    }
    false
}

/// Two sequences with the same elements have duplicates alike.
proof fn lemma_same_multiset_same_duplicates(s1: Seq<AssetId>, s2: Seq<AssetId>)
    requires
        s1.to_multiset() == s2.to_multiset(),
    ensures
        s1.no_duplicates() == s2.no_duplicates(),
{
    if s1.no_duplicates() {
        s1.lemma_multiset_has_no_duplicates();
        s2.lemma_multiset_has_no_duplicates_conv();
    }
    if s2.no_duplicates() {
        s2.lemma_multiset_has_no_duplicates();
        s1.lemma_multiset_has_no_duplicates_conv();
    }
}

/// Outcome of creating a pool of `assets`: the first check that fails, if any.
pub open spec fn create_pool_error(
    pools: Map<AssetId, PoolInfo>,
    assets: Seq<AssetId>,
    amplification: u16,
    config: StableswapConfig,
    all_registered: bool,
    share_asset: AssetId,
) -> Option<StableswapError> {
    if assets.len() > MAX_ASSETS_IN_POOL {
        Some(StableswapError::MaxAssetsExceeded)
    } else if assets.len() < 2 {
        Some(StableswapError::MinAssets)
    } else if !assets.no_duplicates() {
        Some(StableswapError::SameAssets)
    } else if amplification < config.amplification_min || amplification > config.amplification_max {
        Some(StableswapError::InvalidAmplification)
    } else if !all_registered {
        Some(StableswapError::AssetNotRegistered)
    } else if pools.contains_key(share_asset) {
        Some(StableswapError::PoolExists)
    } else {
        None
    }
}

/// Storage of the pallet.
pub struct StableswapState {
    /// Existing pools, by share asset.
    pub pools: HashMap<AssetId, PoolInfo>,
}

impl StableswapState {
    /// Consistency of the storage: every pool has two to five assets, strictly ordered by id.
    pub open spec fn wf(self) -> bool {
        forall|id: AssetId| #[trigger] self.pools@.contains_key(id) ==> {
            let assets = self.pools@[id].assets@;
            &&& 2 <= assets.len() <= MAX_ASSETS_IN_POOL
            &&& strictly_increasing(assets)
        }
    }

    /// Storage with no pools.
    pub fn new() -> (s: StableswapState)
        ensures
            s.pools@ == Map::<AssetId, PoolInfo>::empty(),
            s.wf(),
    {
        StableswapState { pools: HashMap::new() }
    }

    /// Creates a pool of `assets` with `share_asset` as its share asset, as the registry gave
    /// it. `all_registered` is whether every asset is registered. The pool holds the assets
    /// ordered by id and no liquidity yet.
    pub fn create_pool(
        &mut self,
        assets: Vec<AssetId>,
        amplification: u16,
        trade_fee: Permill,
        withdraw_fee: Permill,
        config: &StableswapConfig,
        all_registered: bool,
        share_asset: AssetId,
    ) -> (r: Result<StableswapEvent, StableswapError>)
        ensures
            old(self).wf() ==> final(self).wf(),
            match create_pool_error(old(self).pools@, assets@, amplification, *config, all_registered, share_asset) {
                Some(e) => r == Err::<StableswapEvent, StableswapError>(e) && final(self).pools@ == old(self).pools@,
                None => r is Ok && ({
                    let sorted = assets@.sort_by(asset_order());
                    &&& final(self).pools@.dom() == old(self).pools@.dom().insert(share_asset)
                    &&& forall|id: AssetId| id != share_asset && #[trigger] old(self).pools@.contains_key(id)
                        ==> final(self).pools@[id] == old(self).pools@[id]
                    &&& final(self).pools@[share_asset].assets@ == sorted
                    &&& final(self).pools@[share_asset].amplification == amplification
                    &&& final(self).pools@[share_asset].trade_fee == trade_fee
                    &&& final(self).pools@[share_asset].withdraw_fee == withdraw_fee
                    &&& r->Ok_0 is PoolCreated
                    &&& r->Ok_0->PoolCreated_pool_id == share_asset
                    &&& r->Ok_0->PoolCreated_assets@ == sorted
                    &&& r->Ok_0->PoolCreated_amplification == amplification
                    &&& r->Ok_0->PoolCreated_trade_fee == trade_fee
                    &&& r->Ok_0->PoolCreated_withdraw_fee == withdraw_fee
                }),
            },
    {
        let pool_assets = sort_assets(&assets);
        proof {
            lemma_same_multiset_same_duplicates(pool_assets@, assets@);
            assert(pool_assets@.len() == pool_assets@.to_multiset().len());
            assert(assets@.len() == assets@.to_multiset().len());
        }
        if pool_assets.len() > MAX_ASSETS_IN_POOL as usize {
            return Err(StableswapError::MaxAssetsExceeded);
        }
        if pool_assets.len() < 2 {
            return Err(StableswapError::MinAssets);
        }
        if has_duplicates(&pool_assets) {
            return Err(StableswapError::SameAssets);
        }
        assert(strictly_increasing(pool_assets@));
        if amplification < config.amplification_min || amplification > config.amplification_max {
            return Err(StableswapError::InvalidAmplification);
        }
        if !all_registered {
            return Err(StableswapError::AssetNotRegistered);
        }
        if self.pools.contains_key(&share_asset) {
            return Err(StableswapError::PoolExists);
        }
        let event_assets = pool_assets.clone();
        proof {
            assert(event_assets@ =~= pool_assets@);
        }
        let ghost stored = pool_assets@;
        self.pools.insert(share_asset, PoolInfo { assets: pool_assets, amplification, trade_fee, withdraw_fee });
        proof {
            if old(self).wf() {
                assert forall|id: AssetId| #[trigger] self.pools@.contains_key(id) implies {
                    let a = self.pools@[id].assets@;
                    &&& 2 <= a.len() <= MAX_ASSETS_IN_POOL
                    &&& strictly_increasing(a)
                } by {
                    if id != share_asset && old(self).wf() {
                        assert(old(self).pools@.contains_key(id));
                    } else if id == share_asset {
                        assert(self.pools@[id].assets@ == stored);
                        assert(strictly_increasing(stored));
                    }
                }
            }
            assert(self.pools@.dom() =~= old(self).pools@.dom().insert(share_asset));
        }
        Ok(
            StableswapEvent::PoolCreated {
                pool_id: share_asset,
                assets: event_assets,
                amplification,
                trade_fee,
                withdraw_fee,
            },
        )
    }

    /// The assets of pool `pool_id`, ordered by id, if the pool exists.
    pub fn pool_assets(&self, pool_id: AssetId) -> (r: Option<Vec<AssetId>>)
        ensures
            match r {
                Some(a) => self.pools@.contains_key(pool_id) && a@ == self.pools@[pool_id].assets@,
                None => !self.pools@.contains_key(pool_id),
            },
    {
        match self.pools.get(&pool_id) {
            Some(p) => Some(copy_assets(&p.assets)),
            None => None,
        }
    }

    /// Adds the liquidity `assets` of `who` to a pool, where `share_amount` is the curve's
    /// share amount for the pool's reserves before and after (see `updated_reserves`).
    /// `balances` are `who`'s balances of the added assets, in the order of `assets`;
    /// `reserves` the pool's reserves, in the order of its assets; `share_balance` `who`'s
    /// balance of the pool's shares. Every entry is transferred to the pool; where two entries
    /// name one asset, only the last counts towards the updated reserves.
    pub fn add_liquidity(
        &self,
        who: AccountId,
        pool_id: AssetId,
        assets: Vec<AssetLiquidity>,
        balances: &Vec<Balance>,
        reserves: &Vec<Balance>,
        share_balance: Balance,
        pool_account: AccountId,
        config: &StableswapConfig,
        share_amount: Option<Balance>,
    ) -> (r: Result<(Balance, Vec<CurrencyAction>, StableswapEvent), StableswapError>)
        requires
            balances@.len() == assets@.len(),
            self.pools@.contains_key(pool_id) ==> reserves@.len() == self.pools@[pool_id].assets@.len(),
        ensures
            match add_liquidity_outcome(
                self.pools@,
                pool_id,
                assets@,
                balances@,
                reserves@,
                share_balance,
                *config,
                share_amount,
            ) {
                Err(e) => r == Err::<(Balance, Vec<CurrencyAction>, StableswapEvent), StableswapError>(e),
                Ok(shares) => r is Ok && r->Ok_0.0 == shares && r->Ok_0.1@ == add_liquidity_actions(
                    who,
                    pool_id,
                    pool_account,
                    assets@,
                    shares,
                ) && r->Ok_0.2 is LiquidityAdded && r->Ok_0.2->LiquidityAdded_pool_id == pool_id
                    && r->Ok_0.2->LiquidityAdded_shares == shares && r->Ok_0.2->LiquidityAdded_assets@ == assets@,
            },
    {
        let pool = match self.pools.get(&pool_id) {
            Some(p) => p,
            None => return Err(StableswapError::PoolNotFound),
        };
        if assets.len() > pool.assets.len() {
            return Err(StableswapError::MaxAssetsExceeded);
        }
        let mut i: usize = 0;
        while i < assets.len()
            invariant
                i <= assets@.len(),
                balances@.len() == assets@.len(),
                self.pools@.contains_key(pool_id),
                self.pools@[pool_id] == *pool,
                assets@.len() <= pool.assets@.len(),
                entries_error(assets@, balances@, pool.assets@, *config, 0) == entries_error(
                    assets@,
                    balances@,
                    pool.assets@,
                    *config,
                    i as int,
                ),
            decreases assets.len() - i,
        {
            let entry = assets[i];
            if entry.amount < config.min_trading_limit {
                return Err(StableswapError::InsufficientTradingAmount);
            }
            if balances[i] < entry.amount {
                return Err(StableswapError::InsufficientBalance);
            }
            if find_asset(&pool.assets, entry.asset_id).is_none() {
                return Err(StableswapError::AssetNotInPool);
            }
            i += 1;
        }
        let _updated = updated_reserves(&pool.assets, &assets, reserves)?;
        let shares = match share_amount {
            Some(s) => s,
            None => return Err(StableswapError::Overflow),
        };
        if shares == 0 {
            return Err(StableswapError::InvalidAssetAmount);
        }
        if share_balance.saturating_add(shares) < config.min_pool_liquidity {
            return Err(StableswapError::InsufficientShareBalance);
        }
        let mut actions: Vec<CurrencyAction> = Vec::new();
        actions.push(CurrencyAction::Deposit { asset: pool_id, who, amount: shares });
        let mut k: usize = 0;
        while k < assets.len()
            invariant
                k <= assets@.len(),
                actions@ == add_liquidity_actions(who, pool_id, pool_account, assets@.take(k as int), shares),
            decreases assets.len() - k,
        {
            let entry = assets[k];
            actions.push(
                CurrencyAction::Transfer { asset: entry.asset_id, from: who, to: pool_account, amount: entry.amount },
            );
            proof {
                assert(assets@.take(k + 1) =~= assets@.take(k as int).push(entry));
                assert(actions@ =~= add_liquidity_actions(who, pool_id, pool_account, assets@.take(k + 1), shares));
            }
            k += 1;
        }
        proof {
            assert(assets@.take(assets@.len() as int) =~= assets@);
        }
        Ok((shares, actions, StableswapEvent::LiquidityAdded { pool_id, who, shares, assets }))
    }

    /// Burns `amount` of `who`'s shares of a pool and pays out the same share of the reserve of
    /// every pool asset. `share_balance` is `who`'s balance of shares, `reserves` the pool's
    /// reserves in the order of its assets and `share_issuance` the shares issued.
    pub fn remove_liquidity(
        &self,
        who: AccountId,
        pool_id: AssetId,
        amount: Balance,
        share_balance: Balance,
        reserves: &Vec<Balance>,
        share_issuance: Balance,
        pool_account: AccountId,
        config: &StableswapConfig,
    ) -> (r: Result<(Vec<Balance>, Vec<CurrencyAction>, StableswapEvent), StableswapError>)
        requires
            self.pools@.contains_key(pool_id) ==> reserves@.len() == self.pools@[pool_id].assets@.len(),
        ensures
            match remove_liquidity_outcome(
                self.pools@,
                pool_id,
                amount,
                share_balance,
                reserves@,
                share_issuance,
                *config,
            ) {
                Err(e) => r == Err::<(Vec<Balance>, Vec<CurrencyAction>, StableswapEvent), StableswapError>(e),
                Ok(amounts) => r is Ok && r->Ok_0.0@ == amounts && ({
                    let assets = self.pools@[pool_id].assets@;
                    &&& r->Ok_0.1@ == remove_liquidity_actions(who, pool_id, pool_account, assets, amount, amounts)
                    &&& r->Ok_0.2 is LiquidityRemoved
                    &&& r->Ok_0.2->LiquidityRemoved_pool_id == pool_id
                    &&& r->Ok_0.2->LiquidityRemoved_who == who
                    &&& r->Ok_0.2->LiquidityRemoved_shares == amount
                    &&& r->Ok_0.2->LiquidityRemoved_amounts@ == paid_out(assets, amounts)
                }),
            },
    {
        if amount == 0 {
            return Err(StableswapError::InvalidAssetAmount);
        }
        if share_balance < amount {
            return Err(StableswapError::InsufficientShares);
        }
        if !(share_balance == amount || share_balance - amount >= config.min_pool_liquidity) {
            return Err(StableswapError::InsufficientShareBalance);
        }
        let pool = match self.pools.get(&pool_id) {
            Some(p) => p,
            None => return Err(StableswapError::PoolNotFound),
        };
        if share_issuance.saturating_sub(amount) < config.min_pool_liquidity {
            return Err(StableswapError::InsufficientLiquidityRemaining);
        }
        if share_issuance == 0 {
            return Err(StableswapError::Overflow);
        }
        let mut amounts: Vec<Balance> = Vec::new();
        let mut k: usize = 0;
        while k < reserves.len()
            invariant
                k <= reserves@.len(),
                amounts@.len() == k,
                share_issuance != 0,
                remove_liquidity_outcome(self.pools@, pool_id, amount, share_balance, reserves@, share_issuance, *config)
                    == (if removal_overflows(reserves@, amount, share_issuance) {
                    Err(StableswapError::Overflow)
                } else {
                    Ok(removal_amounts(reserves@, amount, share_issuance))
                }),
                forall|j: int| 0 <= j < k ==> share_of(#[trigger] reserves@[j], amount, share_issuance) <= u128::MAX
                    && amounts@[j] == share_of(reserves@[j], amount, share_issuance),
            decreases reserves.len() - k,
        {
            let paid = match multiply_by_rational_floor(reserves[k], amount, share_issuance) {
                Some(a) => a,
                None => {
                    proof {
                        assert(share_of(reserves@[k as int], amount, share_issuance) > u128::MAX);
                        assert(removal_overflows(reserves@, amount, share_issuance));
                    }
                    return Err(StableswapError::Overflow);
                },
            };
            amounts.push(paid);
            k += 1;
        }
        proof {
            assert(!removal_overflows(reserves@, amount, share_issuance)) by {
                assert forall|j: int| 0 <= j < reserves@.len() implies !(#[trigger] share_of(
                    reserves@[j],
                    amount,
                    share_issuance,
                ) > u128::MAX) by {}
            }
            assert(amounts@ =~= removal_amounts(reserves@, amount, share_issuance));
        }
        let mut actions: Vec<CurrencyAction> = Vec::new();
        actions.push(CurrencyAction::Withdraw { asset: pool_id, who, amount });
        let mut event_amounts: Vec<AssetLiquidity> = Vec::new();
        let mut k: usize = 0;
        while k < pool.assets.len()
            invariant
                k <= pool.assets@.len(),
                pool.assets@.len() == amounts@.len(),
                event_amounts@ == paid_out(pool.assets@.take(k as int), amounts@.take(k as int)),
                actions@ == remove_liquidity_actions(
                    who,
                    pool_id,
                    pool_account,
                    pool.assets@.take(k as int),
                    amount,
                    amounts@.take(k as int),
                ),
            decreases pool.assets.len() - k,
        {
            let asset = pool.assets[k];
            let paid = amounts[k];
            actions.push(CurrencyAction::Transfer { asset, from: pool_account, to: who, amount: paid });
            event_amounts.push(AssetLiquidity { asset_id: asset, amount: paid });
            proof {
                assert(pool.assets@.take(k + 1) =~= pool.assets@.take(k as int).push(asset));
                assert(amounts@.take(k + 1) =~= amounts@.take(k as int).push(paid));
                assert(actions@ =~= remove_liquidity_actions(
                    who,
                    pool_id,
                    pool_account,
                    pool.assets@.take(k + 1),
                    amount,
                    amounts@.take(k + 1),
                ));
                assert(event_amounts@ =~= paid_out(pool.assets@.take(k + 1), amounts@.take(k + 1)));
            }
            k += 1;
        }
        proof {
            assert(pool.assets@.take(pool.assets@.len() as int) =~= pool.assets@);
            assert(amounts@.take(amounts@.len() as int) =~= amounts@);
        }
        Ok((amounts, actions, StableswapEvent::LiquidityRemoved { pool_id, who, shares: amount, amounts: event_amounts }))
    }

    /// Sells `amount_in` of `asset_in` for `asset_out`, where `calculated_out` is the curve's
    /// amount out before the fee. `balance_in` is `who`'s balance of `asset_in` and `balances`
    /// the pool's reserves in the order of its assets.
    pub fn sell(
        &self,
        who: AccountId,
        pool_id: AssetId,
        asset_in: AssetId,
        asset_out: AssetId,
        amount_in: Balance,
        min_buy_amount: Balance,
        balance_in: Balance,
        balances: &Vec<Balance>,
        pool_account: AccountId,
        config: &StableswapConfig,
        calculated_out: Option<Balance>,
    ) -> (r: Result<(Balance, Vec<CurrencyAction>, StableswapEvent), StableswapError>)
        requires
            self.wf(),
            self.pools@.contains_key(pool_id) ==> balances@.len() == self.pools@[pool_id].assets@.len(),
        ensures
            match sell_outcome(
                self.pools@,
                pool_id,
                asset_in,
                asset_out,
                amount_in,
                min_buy_amount,
                balance_in,
                balances@,
                *config,
                calculated_out,
            ) {
                Err(e) => r == Err::<(Balance, Vec<CurrencyAction>, StableswapEvent), StableswapError>(e),
                Ok((amount_out, fee)) => r is Ok && r->Ok_0.0 == amount_out && r->Ok_0.1@ == trade_actions(
                    who,
                    pool_account,
                    asset_in,
                    asset_out,
                    amount_in,
                    amount_out,
                ) && r->Ok_0.2 == StableswapEvent::SellExecuted {
                    who,
                    pool_id,
                    asset_in,
                    asset_out,
                    amount_in,
                    amount_out,
                    fee,
                },
            },
    {
        if amount_in < config.min_trading_limit {
            return Err(StableswapError::InsufficientTradingAmount);
        }
        if balance_in < amount_in {
            return Err(StableswapError::InsufficientBalance);
        }
        let pool = match self.pools.get(&pool_id) {
            Some(p) => p,
            None => return Err(StableswapError::PoolNotFound),
        };
        let index_in = match find_asset(&pool.assets, asset_in) {
            Some(i) => i,
            None => return Err(StableswapError::AssetNotInPool),
        };
        let index_out = match find_asset(&pool.assets, asset_out) {
            Some(i) => i,
            None => return Err(StableswapError::AssetNotInPool),
        };
        proof {
            assert(self.pools@.contains_key(pool_id));
            lemma_pool_index_unique(pool.assets@, index_in as int);
            lemma_pool_index_unique(pool.assets@, index_out as int);
        }
        if balances[index_in] == 0 {
            return Err(StableswapError::InsufficientLiquidity);
        }
        if balances[index_out] == 0 {
            return Err(StableswapError::InsufficientLiquidity);
        }
        let amount_out = match calculated_out {
            Some(a) => a,
            None => return Err(StableswapError::Overflow),
        };
        let fee_amount = pool.trade_fee.mul_floor(amount_out);
        let amount_out = amount_out - fee_amount;
        if amount_out < min_buy_amount {
            return Err(StableswapError::BuyLimitNotReached);
        }
        let mut actions: Vec<CurrencyAction> = Vec::new();
        actions.push(CurrencyAction::Transfer { asset: asset_in, from: who, to: pool_account, amount: amount_in });
        actions.push(CurrencyAction::Transfer { asset: asset_out, from: pool_account, to: who, amount: amount_out });
        Ok(
            (
                amount_out,
                actions,
                StableswapEvent::SellExecuted {
                    who,
                    pool_id,
                    asset_in,
                    asset_out,
                    amount_in,
                    amount_out,
                    fee: fee_amount,
                },
            ),
        )
    }

    /// Buys `amount_out` of `asset_out` for `asset_in`, where `calculated_in` is the curve's
    /// amount in before the fee. `balance_in` is `who`'s balance of `asset_in` and `balances`
    /// the pool's reserves in the order of its assets.
    pub fn buy(
        &self,
        who: AccountId,
        pool_id: AssetId,
        asset_out: AssetId,
        asset_in: AssetId,
        amount_out: Balance,
        max_sell_amount: Balance,
        balance_in: Balance,
        balances: &Vec<Balance>,
        pool_account: AccountId,
        config: &StableswapConfig,
        calculated_in: Option<Balance>,
    ) -> (r: Result<(Balance, Vec<CurrencyAction>, StableswapEvent), StableswapError>)
        requires
            self.wf(),
            self.pools@.contains_key(pool_id) ==> balances@.len() == self.pools@[pool_id].assets@.len(),
        ensures
            match buy_outcome(
                self.pools@,
                pool_id,
                asset_out,
                asset_in,
                amount_out,
                max_sell_amount,
                balance_in,
                balances@,
                *config,
                calculated_in,
            ) {
                Err(e) => r == Err::<(Balance, Vec<CurrencyAction>, StableswapEvent), StableswapError>(e),
                Ok((amount_in, fee)) => r is Ok && r->Ok_0.0 == amount_in && r->Ok_0.1@ == trade_actions(
                    who,
                    pool_account,
                    asset_in,
                    asset_out,
                    amount_in,
                    amount_out,
                ) && r->Ok_0.2 == StableswapEvent::BuyExecuted {
                    who,
                    pool_id,
                    asset_in,
                    asset_out,
                    amount_in,
                    amount_out,
                    fee,
                },
            },
    {
        if amount_out < config.min_trading_limit {
            return Err(StableswapError::InsufficientTradingAmount);
        }
        let pool = match self.pools.get(&pool_id) {
            Some(p) => p,
            None => return Err(StableswapError::PoolNotFound),
        };
        let index_in = match find_asset(&pool.assets, asset_in) {
            Some(i) => i,
            None => return Err(StableswapError::AssetNotInPool),
        };
        let index_out = match find_asset(&pool.assets, asset_out) {
            Some(i) => i,
            None => return Err(StableswapError::AssetNotInPool),
        };
        proof {
            assert(self.pools@.contains_key(pool_id));
            lemma_pool_index_unique(pool.assets@, index_in as int);
            lemma_pool_index_unique(pool.assets@, index_out as int);
        }
        if balances[index_out] <= amount_out {
            return Err(StableswapError::InsufficientLiquidity);
        }
        if balances[index_in] == 0 {
            return Err(StableswapError::InsufficientLiquidity);
        }
        let amount_in = match calculated_in {
            Some(a) => a,
            None => return Err(StableswapError::Overflow),
        };
        let fee_amount = pool.trade_fee.mul_ceil(amount_in);
        let amount_in = match amount_in.checked_add(fee_amount) {
            Some(a) => a,
            None => return Err(StableswapError::Overflow),
        };
        if amount_in > max_sell_amount {
            return Err(StableswapError::SellLimitExceeded);
        }
        if balance_in < amount_in {
            return Err(StableswapError::InsufficientBalance);
        }
        let mut actions: Vec<CurrencyAction> = Vec::new();
        actions.push(CurrencyAction::Transfer { asset: asset_in, from: who, to: pool_account, amount: amount_in });
        actions.push(CurrencyAction::Transfer { asset: asset_out, from: pool_account, to: who, amount: amount_out });
        Ok(
            (
                amount_in,
                actions,
                StableswapEvent::BuyExecuted {
                    who,
                    pool_id,
                    asset_in,
                    asset_out,
                    amount_in,
                    amount_out,
                    fee: fee_amount,
                },
            ),
        )
    }
}

/// A copy of a list of asset ids.
fn copy_assets(assets: &Vec<AssetId>) -> (r: Vec<AssetId>)
    ensures
        r@ == assets@,
{
    let mut r: Vec<AssetId> = Vec::new();
    let mut i: usize = 0;
    while i < assets.len()
        invariant
            i <= assets@.len(),
            r@ == assets@.take(i as int),
        decreases assets.len() - i,
    {
        r.push(assets[i]);
        proof {
            assert(assets@.take(i + 1) =~= assets@.take(i as int).push(assets@[i as int]));
        }
        i += 1;
    }
    proof {
        assert(assets@.take(assets@.len() as int) =~= assets@);
    }
    r
}

/// Position of `asset` among a pool's assets.
pub open spec fn pool_index(assets: Seq<AssetId>, asset: AssetId) -> int {
    choose|i: int| 0 <= i < assets.len() && assets[i] == asset
}

proof fn lemma_pool_index_unique(assets: Seq<AssetId>, i: int)
    requires
        strictly_increasing(assets),
        0 <= i < assets.len(),
    ensures
        pool_index(assets, assets[i]) == i,
{
    let j = pool_index(assets, assets[i]);
    assert(0 <= j < assets.len() && assets[j] == assets[i]);
}

/// The position of `asset` in `assets`, if it is there.
pub fn find_asset(assets: &Vec<AssetId>, asset: AssetId) -> (r: Option<usize>)
    ensures
        match r {
            Some(i) => i < assets@.len() && assets@[i as int] == asset,
            None => !assets@.contains(asset),
        },
{
    let mut i: usize = 0;
    while i < assets.len()
        invariant
            i <= assets@.len(),
            forall|k: int| 0 <= k < i ==> assets@[k] != asset,
        decreases assets.len() - i,
    {
        if assets[i] == asset {
            return Some(i);
        }
        i += 1;
    }
    None
}

/// The first check that an entry of added liquidity fails.
pub open spec fn entry_error(
    entry: AssetLiquidity,
    balance: Balance,
    pool_assets: Seq<AssetId>,
    config: StableswapConfig,
) -> Option<StableswapError> {
    if entry.amount < config.min_trading_limit {
        Some(StableswapError::InsufficientTradingAmount)
    } else if balance < entry.amount {
        Some(StableswapError::InsufficientBalance)
    } else if !pool_assets.contains(entry.asset_id) {
        Some(StableswapError::AssetNotInPool)
    } else {
        None
    }
}

/// The first check that the entries of added liquidity from the `i`-th on fail.
pub open spec fn entries_error(
    entries: Seq<AssetLiquidity>,
    balances: Seq<Balance>,
    pool_assets: Seq<AssetId>,
    config: StableswapConfig,
    i: int,
) -> Option<StableswapError>
    decreases entries.len() - i,
{
    if i < 0 || i >= entries.len() {
        None
    } else if entry_error(entries[i], balances[i], pool_assets, config) is Some {
        entry_error(entries[i], balances[i], pool_assets, config)
    } else {
        entries_error(entries, balances, pool_assets, config, i + 1)
    }
}

/// The amount of `asset` that the first `n` entries add to the pool's reserve: that of the last
/// entry for it. An earlier entry for the same asset is still transferred, but does not count
/// towards the reserves from which the shares are computed.
pub open spec fn added_in_prefix(entries: Seq<AssetLiquidity>, asset: AssetId, n: int) -> Option<Balance>
    decreases n,
{
    if n <= 0 || n > entries.len() {
        None
    } else if entries[n - 1].asset_id == asset {
        Some(entries[n - 1].amount)
    } else {
        added_in_prefix(entries, asset, n - 1)
    }
}

/// The amount of `asset` that `entries` add.
pub open spec fn added_amount(entries: Seq<AssetLiquidity>, asset: AssetId) -> Option<Balance> {
    added_in_prefix(entries, asset, entries.len() as int)
}

/// The first check that a reserve fails when liquidity is added: an asset that gets liquidity
/// must not overflow, and one that gets none must already have some.
pub open spec fn reserve_error(reserve: Balance, added: Option<Balance>) -> Option<StableswapError> {
    match added {
        Some(amount) => if reserve + amount > u128::MAX {
            Some(StableswapError::Overflow)
        } else {
            None
        },
        None => if reserve == 0 {
            Some(StableswapError::InvalidInitialLiquidity)
        } else {
            None
        },
    }
}

/// The first check that the reserves of the pool's assets from the `k`-th on fail.
pub open spec fn reserves_error(
    pool_assets: Seq<AssetId>,
    reserves: Seq<Balance>,
    entries: Seq<AssetLiquidity>,
    k: int,
) -> Option<StableswapError>
    decreases pool_assets.len() - k,
{
    if k < 0 || k >= pool_assets.len() {
        None
    } else if reserve_error(reserves[k], added_amount(entries, pool_assets[k])) is Some {
        reserve_error(reserves[k], added_amount(entries, pool_assets[k]))
    } else {
        reserves_error(pool_assets, reserves, entries, k + 1)
    }
}

/// A reserve after liquidity is added.
pub open spec fn updated_reserve(reserve: Balance, added: Option<Balance>) -> int {
    match added {
        Some(amount) => reserve + amount,
        None => reserve as int,
    }
}

/// The first check that adding `entries` to a pool fails, before the curve is consulted.
pub open spec fn add_liquidity_error(
    pools: Map<AssetId, PoolInfo>,
    pool_id: AssetId,
    entries: Seq<AssetLiquidity>,
    balances: Seq<Balance>,
    reserves: Seq<Balance>,
    config: StableswapConfig,
) -> Option<StableswapError> {
    if !pools.contains_key(pool_id) {
        Some(StableswapError::PoolNotFound)
    } else if entries.len() > pools[pool_id].assets@.len() {
        Some(StableswapError::MaxAssetsExceeded)
    } else if entries_error(entries, balances, pools[pool_id].assets@, config, 0) is Some {
        entries_error(entries, balances, pools[pool_id].assets@, config, 0)
    } else {
        reserves_error(pools[pool_id].assets@, reserves, entries, 0)
    }
}

/// Outcome of adding `entries` to a pool, given the curve's `share_amount`: the shares issued,
/// or the first check that fails.
pub open spec fn add_liquidity_outcome(
    pools: Map<AssetId, PoolInfo>,
    pool_id: AssetId,
    entries: Seq<AssetLiquidity>,
    balances: Seq<Balance>,
    reserves: Seq<Balance>,
    share_balance: Balance,
    config: StableswapConfig,
    share_amount: Option<Balance>,
) -> Result<Balance, StableswapError> {
    match add_liquidity_error(pools, pool_id, entries, balances, reserves, config) {
        Some(e) => Err(e),
        None => match share_amount {
            None => Err(StableswapError::Overflow),
            Some(shares) => if shares == 0 {
                Err(StableswapError::InvalidAssetAmount)
            } else if (if share_balance + shares > u128::MAX {
                u128::MAX as int
            } else {
                share_balance + shares
            }) < config.min_pool_liquidity {
                Err(StableswapError::InsufficientShareBalance)
            } else {
                Ok(shares)
            },
        },
    }
}

/// What adding liquidity asks of the currency pallet: the shares are minted to `who`, then
/// each entry is transferred to the pool, in order.
pub open spec fn add_liquidity_actions(
    who: AccountId,
    pool_id: AssetId,
    pool_account: AccountId,
    entries: Seq<AssetLiquidity>,
    shares: Balance,
) -> Seq<CurrencyAction> {
    seq![CurrencyAction::Deposit { asset: pool_id, who, amount: shares }] + Seq::new(
        entries.len(),
        |i: int|
            CurrencyAction::Transfer {
                asset: entries[i].asset_id,
                from: who,
                to: pool_account,
                amount: entries[i].amount,
            },
    )
}

/// The amount of `asset` that `entries` add (see `added_in_prefix`).
pub fn added_liquidity(entries: &Vec<AssetLiquidity>, asset: AssetId) -> (r: Option<Balance>)
    ensures
        r == added_amount(entries@, asset),
{
    let mut n: usize = entries.len();
    while n > 0
        invariant
            n <= entries@.len(),
            added_in_prefix(entries@, asset, entries@.len() as int) == added_in_prefix(entries@, asset, n as int),
        decreases n,
    {
        if entries[n - 1].asset_id == asset {
            return Some(entries[n - 1].amount);
        }
        n -= 1;
    }
    None
}

/// The reserves of a pool's assets after `entries` are added: each reserve plus what is added
/// of its asset, or the first check that a reserve fails.
pub fn updated_reserves(
    pool_assets: &Vec<AssetId>,
    entries: &Vec<AssetLiquidity>,
    reserves: &Vec<Balance>,
) -> (r: Result<Vec<Balance>, StableswapError>)
    requires
        reserves@.len() == pool_assets@.len(),
    ensures
        match reserves_error(pool_assets@, reserves@, entries@, 0) {
            Some(e) => r == Err::<Vec<Balance>, StableswapError>(e),
            None => r is Ok && r->Ok_0@.len() == pool_assets@.len() && forall|k: int|
                0 <= k < pool_assets@.len() ==> #[trigger] r->Ok_0@[k] == updated_reserve(
                    reserves@[k],
                    added_amount(entries@, pool_assets@[k]),
                ),
        },
{
    let mut updated: Vec<Balance> = Vec::new();
    let mut k: usize = 0;
    while k < pool_assets.len()
        invariant
            k <= pool_assets@.len(),
            reserves@.len() == pool_assets@.len(),
            updated@.len() == k,
            reserves_error(pool_assets@, reserves@, entries@, 0) == reserves_error(
                pool_assets@,
                reserves@,
                entries@,
                k as int,
            ),
            forall|j: int| 0 <= j < k ==> #[trigger] updated@[j] == updated_reserve(
                reserves@[j],
                added_amount(entries@, pool_assets@[j]),
            ),
        decreases pool_assets.len() - k,
    {
        let reserve = reserves[k];
        match added_liquidity(entries, pool_assets[k]) {
            Some(amount) => match reserve.checked_add(amount) {
                Some(u) => updated.push(u),
                None => return Err(StableswapError::Overflow),
            },
            None => {
                if reserve == 0 {
                    return Err(StableswapError::InvalidInitialLiquidity);
                }
                updated.push(reserve);
            },
        }
        k += 1;
    }
    Ok(updated)
}

/// Whether the issuance is zero or the share of some reserve does not fit.
pub open spec fn removal_overflows(reserves: Seq<Balance>, amount: Balance, share_issuance: Balance) -> bool {
    share_issuance == 0 || exists|k: int|
        0 <= k < reserves.len() && #[trigger] share_of(reserves[k], amount, share_issuance) > u128::MAX
}

/// The amounts paid out for `amount` shares: the same share of each reserve, rounded down.
pub open spec fn removal_amounts(reserves: Seq<Balance>, amount: Balance, share_issuance: Balance) -> Seq<
    Balance,
> {
    Seq::new(reserves.len(), |k: int| share_of(reserves[k], amount, share_issuance) as u128)
}

/// The assets paid out with their amounts.
pub open spec fn paid_out(assets: Seq<AssetId>, amounts: Seq<Balance>) -> Seq<AssetLiquidity> {
    Seq::new(assets.len(), |k: int| AssetLiquidity { asset_id: assets[k], amount: amounts[k] })
}

/// What removing liquidity asks of the currency pallet: the shares are burnt, then each asset's
/// amount is transferred from the pool to `who`, in the order of the pool's assets.
pub open spec fn remove_liquidity_actions(
    who: AccountId,
    pool_id: AssetId,
    pool_account: AccountId,
    assets: Seq<AssetId>,
    shares: Balance,
    amounts: Seq<Balance>,
) -> Seq<CurrencyAction> {
    seq![CurrencyAction::Withdraw { asset: pool_id, who, amount: shares }] + Seq::new(
        assets.len(),
        |k: int| CurrencyAction::Transfer { asset: assets[k], from: pool_account, to: who, amount: amounts[k] },
    )
}

/// Outcome of removing `amount` shares: the amounts of every pool asset paid out, in the order
/// of the pool's assets, or the first check that fails.
pub open spec fn remove_liquidity_outcome(
    pools: Map<AssetId, PoolInfo>,
    pool_id: AssetId,
    amount: Balance,
    share_balance: Balance,
    reserves: Seq<Balance>,
    share_issuance: Balance,
    config: StableswapConfig,
) -> Result<Seq<Balance>, StableswapError> {
    if amount == 0 {
        Err(StableswapError::InvalidAssetAmount)
    } else if share_balance < amount {
        Err(StableswapError::InsufficientShares)
    } else if !(share_balance == amount || share_balance - amount >= config.min_pool_liquidity) {
        Err(StableswapError::InsufficientShareBalance)
    } else if !pools.contains_key(pool_id) {
        Err(StableswapError::PoolNotFound)
    } else if (if share_issuance >= amount { share_issuance - amount } else { 0 }) < config.min_pool_liquidity {
        Err(StableswapError::InsufficientLiquidityRemaining)
    } else if removal_overflows(reserves, amount, share_issuance) {
        Err(StableswapError::Overflow)
    } else {
        Ok(removal_amounts(reserves, amount, share_issuance))
    }
}

/// Outcome of selling `amount_in`, given the curve's `calculated_out`: the amount paid out and
/// the fee kept, or the first check that fails.
pub open spec fn sell_outcome(
    pools: Map<AssetId, PoolInfo>,
    pool_id: AssetId,
    asset_in: AssetId,
    asset_out: AssetId,
    amount_in: Balance,
    min_buy_amount: Balance,
    balance_in: Balance,
    balances: Seq<Balance>,
    config: StableswapConfig,
    calculated_out: Option<Balance>,
) -> Result<(Balance, Balance), StableswapError> {
    if amount_in < config.min_trading_limit {
        Err(StableswapError::InsufficientTradingAmount)
    } else if balance_in < amount_in {
        Err(StableswapError::InsufficientBalance)
    } else if !pools.contains_key(pool_id) {
        Err(StableswapError::PoolNotFound)
    } else if !pools[pool_id].assets@.contains(asset_in) || !pools[pool_id].assets@.contains(asset_out) {
        Err(StableswapError::AssetNotInPool)
    } else if balances[pool_index(pools[pool_id].assets@, asset_in)] == 0
        || balances[pool_index(pools[pool_id].assets@, asset_out)] == 0 {
        Err(StableswapError::InsufficientLiquidity)
    } else {
        match calculated_out {
            None => Err(StableswapError::Overflow),
            Some(out) => {
                let fee = fee_amount(out, pools[pool_id].trade_fee, false);
                if out - fee < min_buy_amount {
                    Err(StableswapError::BuyLimitNotReached)
                } else {
                    Ok(((out - fee) as u128, fee as u128))
                }
            },
        }
    }
}

/// Outcome of buying `amount_out`, given the curve's `calculated_in`: the amount to pay, fee
/// included, and the fee, or the first check that fails.
pub open spec fn buy_outcome(
    pools: Map<AssetId, PoolInfo>,
    pool_id: AssetId,
    asset_out: AssetId,
    asset_in: AssetId,
    amount_out: Balance,
    max_sell_amount: Balance,
    balance_in: Balance,
    balances: Seq<Balance>,
    config: StableswapConfig,
    calculated_in: Option<Balance>,
) -> Result<(Balance, Balance), StableswapError> {
    if amount_out < config.min_trading_limit {
        Err(StableswapError::InsufficientTradingAmount)
    } else if !pools.contains_key(pool_id) {
        Err(StableswapError::PoolNotFound)
    } else if !pools[pool_id].assets@.contains(asset_in) || !pools[pool_id].assets@.contains(asset_out) {
        Err(StableswapError::AssetNotInPool)
    } else if balances[pool_index(pools[pool_id].assets@, asset_out)] <= amount_out
        || balances[pool_index(pools[pool_id].assets@, asset_in)] == 0 {
        Err(StableswapError::InsufficientLiquidity)
    } else {
        match calculated_in {
            None => Err(StableswapError::Overflow),
            Some(amount) => {
                let fee = fee_amount(amount, pools[pool_id].trade_fee, true);
                if amount + fee > u128::MAX {
                    Err(StableswapError::Overflow)
                } else if amount + fee > max_sell_amount {
                    Err(StableswapError::SellLimitExceeded)
                } else if balance_in < amount + fee {
                    Err(StableswapError::InsufficientBalance)
                } else {
                    Ok(((amount + fee) as u128, fee as u128))
                }
            },
        }
    }
}


/// The assets a pool is created with are stored in the same order whatever the order they were
/// given in: two lists of the same assets give the same pool assets.
pub proof fn lemma_pool_assets_ignore_given_order(a: Seq<AssetId>, b: Seq<AssetId>)
    requires
        a.to_multiset() == b.to_multiset(),
    ensures
        a.sort_by(asset_order()) == b.sort_by(asset_order()),
{
    lemma_asset_order_is_total();
    a.lemma_sort_by_ensures(asset_order());
    b.lemma_sort_by_ensures(asset_order());
    vstd::seq_lib::lemma_sorted_unique(a.sort_by(asset_order()), b.sort_by(asset_order()), asset_order());
}

/// The assets of a created pool are its given assets, strictly ordered by id.
pub proof fn lemma_created_pool_assets_strictly_increasing(assets: Seq<AssetId>)
    requires
        assets.no_duplicates(),
    ensures
        strictly_increasing(assets.sort_by(asset_order())),
        assets.sort_by(asset_order()).to_multiset() == assets.to_multiset(),
{
    lemma_asset_order_is_total();
    assets.lemma_sort_by_ensures(asset_order());
    let sorted = assets.sort_by(asset_order());
    lemma_same_multiset_same_duplicates(sorted, assets);
    assert forall|i: int, j: int| 0 <= i < j < sorted.len() implies sorted[i] < sorted[j] by {
        assert(asset_order()(sorted[i], sorted[j]));
        assert(sorted[i] != sorted[j]);
    }
}

/// A sell pays out the curve's amount less the trade fee, the fee being the pool's trade fee
/// of the curve's amount rounded down.
pub proof fn lemma_sell_fee_taken_from_amount_out(
    pools: Map<AssetId, PoolInfo>,
    pool_id: AssetId,
    asset_in: AssetId,
    asset_out: AssetId,
    amount_in: Balance,
    min_buy_amount: Balance,
    balance_in: Balance,
    balances: Seq<Balance>,
    config: StableswapConfig,
    calculated_out: Option<Balance>,
)
    requires
        sell_outcome(
            pools,
            pool_id,
            asset_in,
            asset_out,
            amount_in,
            min_buy_amount,
            balance_in,
            balances,
            config,
            calculated_out,
        ) is Ok,
        pools.contains_key(pool_id) ==> pools[pool_id].trade_fee.parts() <= 1_000_000,
    ensures
        ({
            let (amount_out, fee) = sell_outcome(
                pools,
                pool_id,
                asset_in,
                asset_out,
                amount_in,
                min_buy_amount,
                balance_in,
                balances,
                config,
                calculated_out,
            )->Ok_0;
            &&& calculated_out matches Some(out) && amount_out + fee == out
            &&& fee == fee_amount(calculated_out->Some_0, pools[pool_id].trade_fee, false)
            &&& amount_out >= min_buy_amount
            &&& amount_in <= balance_in
        }),
{
    let out = calculated_out->Some_0;
    let p = pools[pool_id].trade_fee.parts();
    assert(out * p / 1_000_000 <= out) by (nonlinear_arith)
        requires
            0 <= out,
            0 <= p <= 1_000_000,
    {
        assert(out * p <= out * 1_000_000);
    }
}

/// A buy charges the curve's amount plus the trade fee, the fee being the pool's trade fee of
/// the curve's amount rounded up, within the buyer's limit and balance; the pool keeps more of
/// the bought asset than it pays out.
pub proof fn lemma_buy_fee_added_to_amount_in(
    pools: Map<AssetId, PoolInfo>,
    pool_id: AssetId,
    asset_out: AssetId,
    asset_in: AssetId,
    amount_out: Balance,
    max_sell_amount: Balance,
    balance_in: Balance,
    balances: Seq<Balance>,
    config: StableswapConfig,
    calculated_in: Option<Balance>,
)
    requires
        buy_outcome(
            pools,
            pool_id,
            asset_out,
            asset_in,
            amount_out,
            max_sell_amount,
            balance_in,
            balances,
            config,
            calculated_in,
        ) is Ok,
    ensures
        ({
            let (amount_in, fee) = buy_outcome(
                pools,
                pool_id,
                asset_out,
                asset_in,
                amount_out,
                max_sell_amount,
                balance_in,
                balances,
                config,
                calculated_in,
            )->Ok_0;
            &&& calculated_in matches Some(c) && amount_in == c + fee
            &&& fee == fee_amount(calculated_in->Some_0, pools[pool_id].trade_fee, true)
            &&& amount_in <= max_sell_amount
            &&& amount_in <= balance_in
            &&& amount_out < balances[pool_index(pools[pool_id].assets@, asset_out)]
        }),
{
}

proof fn lemma_entries_pass_from(
    entries: Seq<AssetLiquidity>,
    balances: Seq<Balance>,
    pool_assets: Seq<AssetId>,
    config: StableswapConfig,
    i: int,
)
    requires
        0 <= i,
        entries_error(entries, balances, pool_assets, config, i) is None,
    ensures
        forall|j: int|
            i <= j < entries.len() ==> {
                &&& pool_assets.contains(#[trigger] entries[j].asset_id)
                &&& entries[j].amount >= config.min_trading_limit
                &&& balances[j] >= entries[j].amount
            },
    decreases entries.len() - i,
{
    if i < entries.len() {
        lemma_entries_pass_from(entries, balances, pool_assets, config, i + 1);
    }
}

proof fn lemma_entry_outside_pool_fails_from(
    entries: Seq<AssetLiquidity>,
    balances: Seq<Balance>,
    pool_assets: Seq<AssetId>,
    config: StableswapConfig,
    i: int,
    k: int,
)
    requires
        0 <= i <= k < entries.len(),
        !pool_assets.contains(entries[k].asset_id),
        forall|j: int|
            i <= j < entries.len() ==> #[trigger] entries[j].amount >= config.min_trading_limit && balances[j]
                >= entries[j].amount,
    ensures
        entries_error(entries, balances, pool_assets, config, i) == Some(StableswapError::AssetNotInPool),
    decreases entries.len() - i,
{
    assert(entries[i].amount >= config.min_trading_limit && balances[i] >= entries[i].amount);
    if pool_assets.contains(entries[i].asset_id) {
        lemma_entry_outside_pool_fails_from(entries, balances, pool_assets, config, i + 1, k);
    }
}

/// Liquidity is added only when every entry passes: each names one of the pool's assets, is at
/// least the smallest trading amount and is covered by the provider's balance.
pub proof fn lemma_added_liquidity_checks_every_entry(
    pools: Map<AssetId, PoolInfo>,
    pool_id: AssetId,
    entries: Seq<AssetLiquidity>,
    balances: Seq<Balance>,
    reserves: Seq<Balance>,
    share_balance: Balance,
    config: StableswapConfig,
    share_amount: Option<Balance>,
)
    requires
        add_liquidity_outcome(pools, pool_id, entries, balances, reserves, share_balance, config, share_amount) is Ok,
    ensures
        pools.contains_key(pool_id),
        entries.len() <= pools[pool_id].assets@.len(),
        forall|j: int|
            0 <= j < entries.len() ==> {
                &&& pools[pool_id].assets@.contains(#[trigger] entries[j].asset_id)
                &&& entries[j].amount >= config.min_trading_limit
                &&& balances[j] >= entries[j].amount
            },
{
    lemma_entries_pass_from(entries, balances, pools[pool_id].assets@, config, 0);
}

/// An entry for an asset outside the pool is refused with `AssetNotInPool`, when the pool
/// exists, there are not more entries than pool assets and every entry's amount is tradable
/// and covered.
pub proof fn lemma_asset_outside_pool_is_refused(
    pools: Map<AssetId, PoolInfo>,
    pool_id: AssetId,
    entries: Seq<AssetLiquidity>,
    balances: Seq<Balance>,
    reserves: Seq<Balance>,
    share_balance: Balance,
    config: StableswapConfig,
    share_amount: Option<Balance>,
    k: int,
)
    requires
        pools.contains_key(pool_id),
        entries.len() <= pools[pool_id].assets@.len(),
        forall|j: int|
            0 <= j < entries.len() ==> #[trigger] entries[j].amount >= config.min_trading_limit && balances[j]
                >= entries[j].amount,
        0 <= k < entries.len(),
        !pools[pool_id].assets@.contains(entries[k].asset_id),
    ensures
        add_liquidity_outcome(pools, pool_id, entries, balances, reserves, share_balance, config, share_amount)
            == Err::<Balance, StableswapError>(StableswapError::AssetNotInPool),
{
    lemma_entry_outside_pool_fails_from(entries, balances, pools[pool_id].assets@, config, 0, k);
}

/// Removing `amount` shares pays out of every reserve exactly `reserve * amount / issuance`,
/// rounded down, whatever the pool's fees; and it goes through whenever the shares are held,
/// the pool exists, enough liquidity stays and each payout fits.
pub proof fn lemma_removal_pays_each_reserve_its_share(
    pools: Map<AssetId, PoolInfo>,
    pool_id: AssetId,
    amount: Balance,
    share_balance: Balance,
    reserves: Seq<Balance>,
    share_issuance: Balance,
    config: StableswapConfig,
)
    ensures
        remove_liquidity_outcome(pools, pool_id, amount, share_balance, reserves, share_issuance, config) matches Ok(
            amounts,
        ) ==> {
            &&& amounts.len() == reserves.len()
            &&& forall|k: int|
                0 <= k < reserves.len() ==> #[trigger] amounts[k] == reserves[k] * amount / (share_issuance as int)
        },
        ({
            &&& amount > 0
            &&& share_balance >= amount
            &&& (share_balance == amount || share_balance - amount >= config.min_pool_liquidity)
            &&& pools.contains_key(pool_id)
            &&& share_issuance >= amount
            &&& share_issuance - amount >= config.min_pool_liquidity
            &&& share_issuance > 0
            &&& forall|k: int|
                0 <= k < reserves.len() ==> #[trigger] (reserves[k] * amount) / (share_issuance as int) <= u128::MAX
        }) ==> remove_liquidity_outcome(pools, pool_id, amount, share_balance, reserves, share_issuance, config)
            is Ok,
{
}

} // verus!
