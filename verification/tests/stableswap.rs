use basilisk::arithmetic::Permill;
use basilisk::currency::{AssetId, CurrencyAction};
use basilisk::stableswap::{
    AssetLiquidity, StableswapConfig, StableswapError, StableswapEvent, StableswapState,
};

const ALICE: u64 = 1;
const BOB: u64 = 2;
const POOL_ACCOUNT: u64 = 99;
const ONE: u128 = 1_000_000_000_000;

fn config() -> StableswapConfig {
    StableswapConfig {
        min_pool_liquidity: 1_000,
        min_trading_limit: 1_000,
        amplification_min: 2,
        amplification_max: 10_000,
    }
}

fn assert_pool(
    state: &StableswapState,
    pool_id: AssetId,
    assets: Vec<AssetId>,
    amplification: u16,
    trade_fee: u32,
    withdraw_fee: u32,
) {
    let pool = state.pools.get(&pool_id);
    assert!(pool.is_some());
    let pool = pool.unwrap();
    assert_eq!(pool.assets, assets);
    assert_eq!(pool.amplification, amplification);
    assert_eq!(pool.trade_fee.deconstruct(), Permill::from_percent(trade_fee).deconstruct());
    assert_eq!(pool.withdraw_fee.deconstruct(), Permill::from_percent(withdraw_fee).deconstruct());
}

#[test]
fn create_two_asset_pool_should_work_when_assets_are_registered() {
    let asset_a: AssetId = 1;
    let asset_b: AssetId = 2;
    let pool_id: AssetId = 100;
    let mut state = StableswapState::new();

    let r = state.create_pool(
        vec![asset_a, asset_b],
        100u16,
        Permill::from_percent(10),
        Permill::from_percent(20),
        &config(),
        true,
        pool_id,
    );
    assert!(r.is_ok());
    assert_pool(&state, pool_id, vec![asset_a, asset_b], 100, 10, 20);
}

#[test]
fn create_multi_asset_pool_should_work_when_assets_are_registered() {
    let asset_a: AssetId = 1;
    let asset_b: AssetId = 2;
    let asset_c: AssetId = 3;
    let asset_d: AssetId = 4;
    let pool_id: AssetId = 100;
    let mut state = StableswapState::new();

    let r = state.create_pool(
        vec![asset_a, asset_b, asset_c, asset_d],
        100u16,
        Permill::from_percent(10),
        Permill::from_percent(20),
        &config(),
        true,
        pool_id,
    );
    assert!(r.is_ok());
    assert_pool(&state, pool_id, vec![asset_a, asset_b, asset_c, asset_d], 100, 10, 20);
}

#[test]
fn create_multi_asset_pool_should_work_when_assets_are_not_in_order() {
    let asset_a: AssetId = 1;
    let asset_b: AssetId = 2;
    let asset_c: AssetId = 3;
    let asset_d: AssetId = 4;
    let asset_e: AssetId = 5;
    let pool_id: AssetId = 100;
    let mut state = StableswapState::new();

    let r = state.create_pool(
        vec![asset_c, asset_a, asset_d, asset_b, asset_e],
        100u16,
        Permill::from_percent(10),
        Permill::from_percent(20),
        &config(),
        true,
        pool_id,
    );
    assert!(r.is_ok());
    assert_pool(&state, pool_id, vec![asset_a, asset_b, asset_c, asset_d, asset_e], 100, 10, 20);
}

#[test]
fn create_pool_should_fail_when_number_of_asset_exceeds() {
    let mut state = StableswapState::new();
    let amplification: u16 = 100;
    let r = state.create_pool(
        vec![1, 2, 3, 4, 5, 6],
        amplification,
        Permill::from_percent(0),
        Permill::from_percent(0),
        &config(),
        true,
        100,
    );
    assert_eq!(r.err(), Some(StableswapError::MaxAssetsExceeded));
    assert!(state.pools.is_empty());
}

#[test]
fn create_pool_should_fail_when_number_of_asset_is_below_two() {
    let mut state = StableswapState::new();
    let asset_a: AssetId = 1;
    let amplification: u16 = 100;
    let r = state.create_pool(
        vec![],
        amplification,
        Permill::from_percent(0),
        Permill::from_percent(0),
        &config(),
        true,
        100,
    );
    assert_eq!(r.err(), Some(StableswapError::MinAssets));
    let r = state.create_pool(
        vec![asset_a],
        amplification,
        Permill::from_percent(0),
        Permill::from_percent(0),
        &config(),
        true,
        100,
    );
    assert_eq!(r.err(), Some(StableswapError::MinAssets));
    assert!(state.pools.is_empty());
}

#[test]
fn create_pool_should_fail_when_asset_ids_are_not_unique() {
    let mut state = StableswapState::new();
    let asset_a: AssetId = 1;
    let asset_b: AssetId = 2;
    let asset_c: AssetId = 3;
    let asset_d: AssetId = 1;
    let r = state.create_pool(
        vec![asset_a, asset_b, asset_c, asset_d],
        100,
        Permill::from_percent(0),
        Permill::from_percent(0),
        &config(),
        true,
        100,
    );
    assert_eq!(r.err(), Some(StableswapError::SameAssets));
    assert!(state.pools.is_empty());
}

#[test]
fn create_pool_should_fail_when_asset_is_not_registered() {
    let mut state = StableswapState::new();
    let registered: AssetId = 1000;
    let not_registered: AssetId = 2000;
    let r = state.create_pool(
        vec![not_registered, registered],
        100,
        Permill::from_percent(0),
        Permill::from_percent(0),
        &config(),
        false,
        100,
    );
    assert_eq!(r.err(), Some(StableswapError::AssetNotRegistered));
    let r = state.create_pool(
        vec![registered, not_registered],
        100,
        Permill::from_percent(0),
        Permill::from_percent(0),
        &config(),
        false,
        100,
    );
    assert_eq!(r.err(), Some(StableswapError::AssetNotRegistered));
    assert!(state.pools.is_empty());
}

#[test]
fn create_pool_should_fail_when_same_pool_already_exists() {
    let mut state = StableswapState::new();
    let asset_a: AssetId = 1;
    let asset_b: AssetId = 2;
    let amplification: u16 = 100;
    let pool_id: AssetId = 100;
    let r = state.create_pool(
        vec![asset_a, asset_b],
        amplification,
        Permill::from_percent(0),
        Permill::from_percent(0),
        &config(),
        true,
        pool_id,
    );
    assert!(r.is_ok());
    // The registry names the share asset after the sorted assets, so the reversed pair gets
    // the same share asset.
    let r = state.create_pool(
        vec![asset_b, asset_a],
        amplification,
        Permill::from_percent(10),
        Permill::from_percent(20),
        &config(),
        true,
        pool_id,
    );
    assert_eq!(r.err(), Some(StableswapError::PoolExists));
    assert_pool(&state, pool_id, vec![asset_a, asset_b], amplification, 0, 0);
}

#[test]
fn create_pool_should_fail_when_amplification_is_out_of_range() {
    let mut state = StableswapState::new();
    let asset_a: AssetId = 1000;
    let asset_b: AssetId = 2000;
    let amplification_min: u16 = 1;
    let amplification_max: u16 = 10_001;
    let r = state.create_pool(
        vec![asset_a, asset_b],
        amplification_min,
        Permill::from_percent(0),
        Permill::from_percent(0),
        &config(),
        true,
        100,
    );
    assert_eq!(r.err(), Some(StableswapError::InvalidAmplification));
    let r = state.create_pool(
        vec![asset_a, asset_b],
        amplification_max,
        Permill::from_percent(0),
        Permill::from_percent(0),
        &config(),
        true,
        100,
    );
    assert_eq!(r.err(), Some(StableswapError::InvalidAmplification));
    assert!(state.pools.is_empty());
}

#[test]
fn create_pool_should_emit_event() {
    let asset_a: AssetId = 1;
    let asset_b: AssetId = 2;
    let asset_c: AssetId = 3;
    let pool_id: AssetId = 100;
    let mut state = StableswapState::new();
    let r = state.create_pool(
        vec![asset_c, asset_b, asset_a],
        100u16,
        Permill::from_percent(10),
        Permill::from_percent(20),
        &config(),
        true,
        pool_id,
    );
    match r {
        Ok(StableswapEvent::PoolCreated { pool_id: id, assets, amplification, trade_fee, withdraw_fee }) => {
            assert_eq!(id, pool_id);
            assert_eq!(assets, vec![asset_a, asset_b, asset_c]);
            assert_eq!(amplification, 100u16);
            assert_eq!(trade_fee.deconstruct(), Permill::from_percent(10).deconstruct());
            assert_eq!(withdraw_fee.deconstruct(), Permill::from_percent(20).deconstruct());
        },
        _ => panic!("expected a pool-created event"),
    }
}

fn state_with_pool(assets: Vec<AssetId>, trade_fee: u32) -> StableswapState {
    let mut state = StableswapState::new();
    let r = state.create_pool(
        assets,
        100,
        Permill::from_percent(trade_fee),
        Permill::from_percent(0),
        &config(),
        true,
        100,
    );
    assert!(r.is_ok());
    state
}

#[test]
fn pool_assets_are_sorted_whatever_the_given_order() {
    let state = state_with_pool(vec![30, 10, 20], 0);
    assert_eq!(state.pool_assets(100), Some(vec![10, 20, 30]));
    assert_eq!(state.pool_assets(101), None);
}

#[test]
fn add_liquidity_issues_the_given_shares() {
    let state = state_with_pool(vec![1, 2, 3], 0);
    let assets = vec![
        AssetLiquidity { asset_id: 1, amount: 100 * ONE },
        AssetLiquidity { asset_id: 3, amount: 50 * ONE },
    ];
    let r = state.add_liquidity(
        ALICE,
        100,
        assets.clone(),
        &vec![200 * ONE, 200 * ONE],
        &vec![0, ONE, 0],
        0,
        POOL_ACCOUNT,
        &config(),
        Some(150 * ONE),
    );
    let (shares, actions, event) = r.unwrap();
    assert_eq!(shares, 150 * ONE);
    assert_eq!(
        actions,
        vec![
            CurrencyAction::Deposit { asset: 100, who: ALICE, amount: 150 * ONE },
            CurrencyAction::Transfer { asset: 1, from: ALICE, to: POOL_ACCOUNT, amount: 100 * ONE },
            CurrencyAction::Transfer { asset: 3, from: ALICE, to: POOL_ACCOUNT, amount: 50 * ONE },
        ]
    );
    match event {
        StableswapEvent::LiquidityAdded { pool_id, who, shares, assets: added } => {
            assert_eq!(pool_id, 100);
            assert_eq!(who, ALICE);
            assert_eq!(shares, 150 * ONE);
            assert_eq!(added, assets);
        },
        _ => panic!("expected a liquidity-added event"),
    }
}

#[test]
fn stableswap_add_liquidity_errors() {
    let state = state_with_pool(vec![1, 2, 3], 0);
    let cfg = config();
    let one = |asset_id: AssetId, amount: u128| vec![AssetLiquidity { asset_id, amount }];
    let add_to = |reserves: Vec<u128>, assets: Vec<AssetLiquidity>, balance: u128, pool_id: AssetId, shares: Option<u128>, share_balance: u128| {
        let balances = vec![balance; assets.len()];
        state
            .add_liquidity(ALICE, pool_id, assets, &balances, &reserves, share_balance, POOL_ACCOUNT, &cfg, shares)
            .err()
    };
    let add = |assets: Vec<AssetLiquidity>, balance: u128, pool_id: AssetId, shares: Option<u128>, share_balance: u128| {
        add_to(vec![ONE, ONE, ONE], assets, balance, pool_id, shares, share_balance)
    };
    assert_eq!(add_to(vec![0, 0, 0], one(1, ONE), ONE, 100, Some(ONE), 0), Some(StableswapError::InvalidInitialLiquidity));
    assert_eq!(add_to(vec![u128::MAX, ONE, ONE], one(1, ONE), ONE, 100, Some(ONE), 0), Some(StableswapError::Overflow));
    assert_eq!(add(one(1, ONE), ONE, 101, Some(ONE), 0), Some(StableswapError::PoolNotFound));
    let too_many = vec![
        AssetLiquidity { asset_id: 1, amount: ONE },
        AssetLiquidity { asset_id: 2, amount: ONE },
        AssetLiquidity { asset_id: 3, amount: ONE },
        AssetLiquidity { asset_id: 1, amount: ONE },
    ];
    assert_eq!(add(too_many, ONE, 100, Some(ONE), 0), Some(StableswapError::MaxAssetsExceeded));
    assert_eq!(add(one(1, 999), ONE, 100, Some(ONE), 0), Some(StableswapError::InsufficientTradingAmount));
    assert_eq!(add(one(1, ONE), ONE - 1, 100, Some(ONE), 0), Some(StableswapError::InsufficientBalance));
    assert_eq!(add(one(7, ONE), ONE, 100, Some(ONE), 0), Some(StableswapError::AssetNotInPool));

    assert_eq!(add(one(1, ONE), ONE, 100, None, 0), Some(StableswapError::Overflow));
    assert_eq!(add(one(1, ONE), ONE, 100, Some(0), 0), Some(StableswapError::InvalidAssetAmount));
    assert_eq!(add(one(1, ONE), ONE, 100, Some(999), 0), Some(StableswapError::InsufficientShareBalance));
    assert_eq!(add(one(1, ONE), ONE, 100, Some(999), 1), None);
}

#[test]
fn repeated_entries_are_all_transferred_and_the_last_counts_for_the_reserves() {
    let state = state_with_pool(vec![1, 2], 0);
    let twice = vec![AssetLiquidity { asset_id: 1, amount: ONE }, AssetLiquidity { asset_id: 1, amount: 2 * ONE }];
    // The reserve of asset 1 overflows with the last entry alone, not with the first.
    let overflow = state.add_liquidity(
        ALICE, 100, twice.clone(), &vec![2 * ONE, 2 * ONE], &vec![u128::MAX - ONE, ONE], 0, POOL_ACCOUNT, &config(), Some(ONE),
    );
    assert_eq!(overflow.err(), Some(StableswapError::Overflow));
    let r = state.add_liquidity(
        ALICE, 100, twice, &vec![2 * ONE, 2 * ONE], &vec![ONE, ONE], 0, POOL_ACCOUNT, &config(), Some(ONE),
    );
    let (_, actions, _) = r.unwrap();
    assert_eq!(
        actions,
        vec![
            CurrencyAction::Deposit { asset: 100, who: ALICE, amount: ONE },
            CurrencyAction::Transfer { asset: 1, from: ALICE, to: POOL_ACCOUNT, amount: ONE },
            CurrencyAction::Transfer { asset: 1, from: ALICE, to: POOL_ACCOUNT, amount: 2 * ONE },
        ]
    );
}

#[test]
fn remove_liquidity_pays_a_share_of_the_reserves() {
    let state = state_with_pool(vec![1, 2], 0);
    let r = state.remove_liquidity(
        ALICE,
        100,
        100 * ONE,
        300 * ONE,
        &vec![600 * ONE, 900 * ONE],
        1_000 * ONE,
        POOL_ACCOUNT,
        &config(),
    );
    let (amounts, actions, event) = r.unwrap();
    assert_eq!(amounts, vec![60 * ONE, 90 * ONE]);
    assert_eq!(
        actions,
        vec![
            CurrencyAction::Withdraw { asset: 100, who: ALICE, amount: 100 * ONE },
            CurrencyAction::Transfer { asset: 1, from: POOL_ACCOUNT, to: ALICE, amount: 60 * ONE },
            CurrencyAction::Transfer { asset: 2, from: POOL_ACCOUNT, to: ALICE, amount: 90 * ONE },
        ]
    );
    match event {
        StableswapEvent::LiquidityRemoved { pool_id, who, shares, amounts } => {
            assert_eq!((pool_id, who, shares), (100, ALICE, 100 * ONE));
            assert_eq!(
                amounts,
                vec![
                    AssetLiquidity { asset_id: 1, amount: 60 * ONE },
                    AssetLiquidity { asset_id: 2, amount: 90 * ONE },
                ]
            );
        },
        _ => panic!("expected a liquidity-removed event"),
    }
}

#[test]
fn remove_liquidity_pays_every_asset_of_a_larger_pool() {
    let state = state_with_pool(vec![3, 1, 2], 0);
    let r = state.remove_liquidity(
        ALICE,
        100,
        250 * ONE,
        250 * ONE,
        &vec![100 * ONE, 200 * ONE, 400 * ONE],
        1_000 * ONE,
        POOL_ACCOUNT,
        &config(),
    );
    let (amounts, actions, _) = r.unwrap();
    assert_eq!(amounts, vec![25 * ONE, 50 * ONE, 100 * ONE]);
    assert_eq!(
        actions,
        vec![
            CurrencyAction::Withdraw { asset: 100, who: ALICE, amount: 250 * ONE },
            CurrencyAction::Transfer { asset: 1, from: POOL_ACCOUNT, to: ALICE, amount: 25 * ONE },
            CurrencyAction::Transfer { asset: 2, from: POOL_ACCOUNT, to: ALICE, amount: 50 * ONE },
            CurrencyAction::Transfer { asset: 3, from: POOL_ACCOUNT, to: ALICE, amount: 100 * ONE },
        ]
    );
}

#[test]
fn stableswap_remove_liquidity_errors() {
    let state = state_with_pool(vec![1, 2], 0);
    let cfg = config();
    let remove = |pool_id: AssetId, amount: u128, share_balance: u128, issuance: u128| {
        state
            .remove_liquidity(ALICE, pool_id, amount, share_balance, &vec![ONE, ONE], issuance, POOL_ACCOUNT, &cfg)
            .err()
    };
    assert_eq!(remove(100, 0, ONE, 10 * ONE), Some(StableswapError::InvalidAssetAmount));
    assert_eq!(remove(100, ONE + 1, ONE, 10 * ONE), Some(StableswapError::InsufficientShares));
    assert_eq!(remove(100, ONE - 1, ONE, 10 * ONE), Some(StableswapError::InsufficientShareBalance));
    assert_eq!(remove(101, ONE, ONE, 10 * ONE), Some(StableswapError::PoolNotFound));
    assert_eq!(remove(100, ONE, ONE, ONE + 999), Some(StableswapError::InsufficientLiquidityRemaining));
    assert_eq!(remove(100, ONE, ONE, ONE + 1_000), None);
    let mut lax = config();
    lax.min_pool_liquidity = 0;
    let overflow = state
        .remove_liquidity(ALICE, 100, 2 * ONE, 2 * ONE, &vec![1, u128::MAX], ONE, POOL_ACCOUNT, &lax)
        .err();
    assert_eq!(overflow, Some(StableswapError::Overflow));
    let no_issuance = state.remove_liquidity(ALICE, 100, ONE, ONE, &vec![1, 1], 0, POOL_ACCOUNT, &lax).err();
    assert_eq!(no_issuance, Some(StableswapError::Overflow));
}

#[test]
fn sell_takes_the_fee_from_the_amount_out() {
    let state = state_with_pool(vec![1, 2, 3], 10);
    let r = state.sell(
        ALICE,
        100,
        1,
        3,
        10 * ONE,
        8 * ONE,
        20 * ONE,
        &vec![100 * ONE, 100 * ONE, 100 * ONE],
        POOL_ACCOUNT,
        &config(),
        Some(9 * ONE),
    );
    let (amount_out, actions, event) = r.unwrap();
    // 9 minus 10 % of it
    assert_eq!(amount_out, 8_100_000_000_000);
    assert_eq!(
        actions,
        vec![
            CurrencyAction::Transfer { asset: 1, from: ALICE, to: POOL_ACCOUNT, amount: 10 * ONE },
            CurrencyAction::Transfer { asset: 3, from: POOL_ACCOUNT, to: ALICE, amount: 8_100_000_000_000 },
        ]
    );
    match event {
        StableswapEvent::SellExecuted { fee, amount_in, amount_out, .. } => {
            assert_eq!(fee, 900_000_000_000);
            assert_eq!(amount_in, 10 * ONE);
            assert_eq!(amount_out, 8_100_000_000_000);
        },
        _ => panic!("expected a sell event"),
    }
}

#[test]
fn stableswap_sell_errors() {
    let state = state_with_pool(vec![1, 2, 3], 10);
    let cfg = config();
    let sell = |asset_in: AssetId, amount_in: u128, min_buy: u128, balance: u128, reserves: Vec<u128>, out: Option<u128>| {
        state.sell(BOB, 100, asset_in, 3, amount_in, min_buy, balance, &reserves, POOL_ACCOUNT, &cfg, out).err()
    };
    let full = vec![ONE, ONE, ONE];
    assert_eq!(sell(1, 999, 0, ONE, full.clone(), Some(ONE)), Some(StableswapError::InsufficientTradingAmount));
    assert_eq!(sell(1, ONE, 0, ONE - 1, full.clone(), Some(ONE)), Some(StableswapError::InsufficientBalance));
    assert_eq!(sell(9, ONE, 0, ONE, full.clone(), Some(ONE)), Some(StableswapError::AssetNotInPool));
    assert_eq!(sell(1, ONE, 0, ONE, vec![0, ONE, ONE], Some(ONE)), Some(StableswapError::InsufficientLiquidity));
    assert_eq!(sell(1, ONE, 0, ONE, full.clone(), None), Some(StableswapError::Overflow));
    assert_eq!(sell(1, ONE, ONE, ONE, full.clone(), Some(ONE)), Some(StableswapError::BuyLimitNotReached));
    assert_eq!(
        state.sell(BOB, 101, 1, 3, ONE, 0, ONE, &full, POOL_ACCOUNT, &cfg, Some(ONE)).err(),
        Some(StableswapError::PoolNotFound)
    );
}

#[test]
fn buy_adds_the_fee_to_the_amount_in() {
    let state = state_with_pool(vec![1, 2, 3], 10);
    let r = state.buy(
        ALICE,
        100,
        3,
        1,
        10 * ONE,
        12 * ONE,
        20 * ONE,
        &vec![100 * ONE, 100 * ONE, 100 * ONE],
        POOL_ACCOUNT,
        &config(),
        Some(10 * ONE + 1),
    );
    let (amount_in, actions, event) = r.unwrap();
    // 10 % of 10 ONE + 1, rounded up, is added
    assert_eq!(amount_in, 10 * ONE + 1 + ONE + 1);
    assert_eq!(
        actions,
        vec![
            CurrencyAction::Transfer { asset: 1, from: ALICE, to: POOL_ACCOUNT, amount: 11 * ONE + 2 },
            CurrencyAction::Transfer { asset: 3, from: POOL_ACCOUNT, to: ALICE, amount: 10 * ONE },
        ]
    );
    match event {
        StableswapEvent::BuyExecuted { fee, .. } => assert_eq!(fee, ONE + 1),
        _ => panic!("expected a buy event"),
    }
}

#[test]
fn stableswap_buy_errors() {
    let state = state_with_pool(vec![1, 2, 3], 10);
    let cfg = config();
    let full = vec![10 * ONE, 10 * ONE, 10 * ONE];
    let buy = |amount_out: u128, max_sell: u128, balance: u128, reserves: Vec<u128>, calc: Option<u128>| {
        state.buy(BOB, 100, 3, 1, amount_out, max_sell, balance, &reserves, POOL_ACCOUNT, &cfg, calc).err()
    };
    assert_eq!(buy(999, 2 * ONE, 2 * ONE, full.clone(), Some(ONE)), Some(StableswapError::InsufficientTradingAmount));
    assert_eq!(buy(10 * ONE, 2 * ONE, 2 * ONE, full.clone(), Some(ONE)), Some(StableswapError::InsufficientLiquidity));
    assert_eq!(buy(ONE, 2 * ONE, 2 * ONE, full.clone(), None), Some(StableswapError::Overflow));
    assert_eq!(buy(ONE, ONE, 2 * ONE, full.clone(), Some(ONE)), Some(StableswapError::SellLimitExceeded));
    assert_eq!(buy(ONE, 2 * ONE, ONE, full.clone(), Some(ONE)), Some(StableswapError::InsufficientBalance));
    assert_eq!(buy(ONE, 2 * ONE, 2 * ONE, full, Some(ONE)), None);
}
