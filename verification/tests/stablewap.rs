use basilisk::arithmetic::Permill;
use basilisk::currency::CurrencyAction;
use basilisk::stablewap::{
    calculate_asset_b_reserve, calculate_fee_amount, PoolAssets, PoolId, StablewapConfig,
    StablewapError, StablewapEvent, StablewapState,
};

const ALICE: u64 = 1;
const BOB: u64 = 2;
const POOL_ACCOUNT: u64 = 99;
const ONE: u128 = 1_000_000_000_000;
const SHARE: u32 = 100;

fn config() -> StablewapConfig {
    StablewapConfig {
        precision: 1,
        min_pool_liquidity: 1_000,
        min_trading_limit: 1_000,
        amplification_min: 2,
        amplification_max: 10_000,
    }
}

fn pool_with_fee(fee: u32) -> StablewapState {
    let mut state = StablewapState::new();
    let r = state.create_pool_with_shares(
        ALICE,
        (2, 1),
        (100 * ONE, 100 * ONE),
        100,
        Permill::from_percent(fee),
        &config(),
        true,
        (200 * ONE, 200 * ONE),
        SHARE,
        POOL_ACCOUNT,
        Some(200 * ONE),
    );
    assert!(r.is_ok());
    state
}

#[test]
fn pool_assets_are_ordered_by_id() {
    assert_eq!(PoolAssets::new((5, 3)), PoolAssets(3, 5));
    assert_eq!(PoolAssets::new((3, 5)), PoolAssets(3, 5));
    assert!(PoolAssets(3, 5).is_valid());
    assert!(!PoolAssets(3, 3).is_valid());
    assert!(PoolAssets(3, 5).contains(5));
    assert!(!PoolAssets(3, 5).contains(4));
}

#[test]
fn fee_is_rounded_down_for_sells_and_up_for_buys() {
    let fee = Permill::from_percent(3);
    assert_eq!(calculate_fee_amount(1_001, fee, false), 30);
    assert_eq!(calculate_fee_amount(1_001, fee, true), 31);
    assert_eq!(calculate_fee_amount(1_000, fee, true), 30);
    assert_eq!(calculate_fee_amount(0, fee, true), 0);
}

#[test]
fn asset_b_reserve_keeps_the_ratio() {
    assert_eq!(calculate_asset_b_reserve(100, 300, 150), Some(450));
    assert_eq!(calculate_asset_b_reserve(3, 10, 4), Some(13));
    assert_eq!(calculate_asset_b_reserve(0, 10, 4), None);
    assert_eq!(calculate_asset_b_reserve(1, u128::MAX, 2), None);
    assert_eq!(calculate_asset_b_reserve(u128::MAX, u128::MAX, u128::MAX), Some(u128::MAX));
}

#[test]
fn create_pool_with_shares_records_the_pool_and_moves_liquidity() {
    let mut state = StablewapState::new();
    let r = state.create_pool_with_shares(
        ALICE,
        (2, 1),
        (100 * ONE, 50 * ONE),
        100,
        Permill::from_percent(1),
        &config(),
        true,
        (200 * ONE, 200 * ONE),
        SHARE,
        POOL_ACCOUNT,
        Some(150 * ONE),
    );
    let (shares, actions, event) = r.unwrap();
    assert_eq!(shares, 150 * ONE);
    let pool = state.pool(PoolId(SHARE)).unwrap();
    assert_eq!(pool.assets, PoolAssets(1, 2));
    assert_eq!(pool.amplification, 100);
    assert_eq!(pool.fee.deconstruct(), 10_000);
    assert!(actions.contains(&CurrencyAction::Deposit { asset: SHARE, who: ALICE, amount: 150 * ONE }));
    assert!(matches!(event, StablewapEvent::PoolCreated { id: PoolId(SHARE), amplification: 100, .. }));
}

#[test]
fn create_pool_errors() {
    let cfg = config();
    let create = |assets: (u32, u32), liquidity: (u128, u128), amplification: u16, registered: bool, balances: (u128, u128), shares: Option<u128>| {
        let mut state = StablewapState::new();
        let r = state.create_pool_with_shares(
            ALICE,
            assets,
            liquidity,
            amplification,
            Permill::zero(),
            &cfg,
            registered,
            balances,
            SHARE,
            POOL_ACCOUNT,
            shares,
        );
        if r.is_err() {
            assert!(state.pool(PoolId(SHARE)).is_none());
        }
        r.err()
    };
    let l = (ONE, ONE);
    assert_eq!(create((1, 1), l, 100, true, l, Some(ONE)), Some(StablewapError::SameAssets));
    assert_eq!(create((1, 2), l, 1, true, l, Some(ONE)), Some(StablewapError::InvalidAmplification));
    assert_eq!(create((1, 2), l, 10_001, true, l, Some(ONE)), Some(StablewapError::InvalidAmplification));
    assert_eq!(create((1, 2), l, 100, false, l, Some(ONE)), Some(StablewapError::AssetNotRegistered));
    assert_eq!(create((1, 2), (0, ONE), 100, true, l, Some(ONE)), Some(StablewapError::InvalidInitialLiquidity));
    assert_eq!(create((1, 2), l, 100, true, (ONE - 1, ONE), Some(ONE)), Some(StablewapError::BalanceTooLow));
    assert_eq!(create((1, 2), l, 100, true, l, None), Some(StablewapError::Overflow));
    assert_eq!(create((1, 2), l, 100, true, l, Some(999)), Some(StablewapError::InsufficientLiquidity));
    assert_eq!(create((1, 2), l, 100, true, l, Some(1_000)), None);

    let mut state = pool_with_fee(0);
    let again = state.create_pool_with_shares(
        BOB, (1, 2), l, 100, Permill::zero(), &cfg, true, l, SHARE, POOL_ACCOUNT, Some(ONE),
    );
    assert_eq!(again.err(), Some(StablewapError::PoolExists));
}

#[test]
fn create_pool_issues_the_curve_invariant_as_shares() {
    let mut state = StablewapState::new();
    let r = state.create_pool(
        ALICE,
        (1, 2),
        (100 * ONE, 100 * ONE),
        100,
        Permill::zero(),
        &config(),
        true,
        (200 * ONE, 200 * ONE),
        SHARE,
        POOL_ACCOUNT,
    );
    let (shares, _, _) = r.unwrap();
    // For balanced reserves the invariant is their sum; the curve rounds it down by at most 2.
    assert!(shares <= 200 * ONE + 2 && shares + 2 >= 200 * ONE);
}

#[test]
fn add_liquidity_keeps_the_ratio_of_the_reserves() {
    let state = pool_with_fee(0);
    let r = state.add_liquidity_with_shares(
        BOB,
        PoolId(SHARE),
        2,
        10 * ONE,
        100 * ONE,
        100 * ONE,
        (100 * ONE, 300 * ONE),
        POOL_ACCOUNT,
        &config(),
        Some(7 * ONE),
    );
    let (shares, actions, event) = r.unwrap();
    assert_eq!(shares, 7 * ONE);
    // asset 2 is the pool's second asset: its reserve is 300, the other's 100
    match event {
        StablewapEvent::LiquidityAdded { assets, amounts, .. } => {
            assert_eq!(assets, (2, 1));
            assert_eq!(amounts, (10 * ONE, 10 * ONE / 3));
        },
        _ => panic!("expected a liquidity-added event"),
    }
    assert!(actions.contains(&CurrencyAction::Transfer { asset: 2, from: BOB, to: POOL_ACCOUNT, amount: 10 * ONE }));
    assert!(actions.contains(&CurrencyAction::Transfer { asset: 1, from: BOB, to: POOL_ACCOUNT, amount: 10 * ONE / 3 }));
}

#[test]
fn stablewap_add_liquidity_errors() {
    let state = pool_with_fee(0);
    let cfg = config();
    let add = |pool: u32, asset: u32, amount: u128, balance: u128, other: u128, reserves: (u128, u128), shares: Option<u128>| {
        state
            .add_liquidity_with_shares(BOB, PoolId(pool), asset, amount, balance, other, reserves, POOL_ACCOUNT, &cfg, shares)
            .err()
    };
    let r = (ONE, ONE);
    assert_eq!(add(SHARE, 1, 999, ONE, ONE, r, Some(1)), Some(StablewapError::InsufficientTradingAmount));
    assert_eq!(add(SHARE, 1, ONE, ONE - 1, ONE, r, Some(1)), Some(StablewapError::InsufficientBalance));
    assert_eq!(add(SHARE + 1, 1, ONE, ONE, ONE, r, Some(1)), Some(StablewapError::PoolNotFound));
    assert_eq!(add(SHARE, 3, ONE, ONE, ONE, r, Some(1)), Some(StablewapError::AssetNotInPool));
    assert_eq!(add(SHARE, 1, ONE, ONE, ONE, (0, ONE), Some(1)), Some(StablewapError::Overflow));
    assert_eq!(add(SHARE, 1, ONE, ONE, ONE - 1, r, Some(1)), Some(StablewapError::InsufficientBalance));
    assert_eq!(add(SHARE, 1, ONE, ONE, ONE, r, None), Some(StablewapError::Overflow));
    assert_eq!(add(SHARE, 1, ONE, ONE, ONE, r, Some(1)), None);
}

#[test]
fn add_liquidity_through_the_curve_issues_proportional_shares() {
    let state = pool_with_fee(0);
    let shares = state
        .add_liquidity_shares(PoolId(SHARE), 1, 10 * ONE, (100 * ONE, 100 * ONE), 200 * ONE, &config())
        .unwrap();
    // Ten percent more of both reserves gives about ten percent more shares.
    assert!(shares <= 20 * ONE && shares + 10 >= 20 * ONE);
    let r = state.add_liquidity(
        BOB,
        PoolId(SHARE),
        1,
        10 * ONE,
        10 * ONE,
        10 * ONE,
        (100 * ONE, 100 * ONE),
        200 * ONE,
        POOL_ACCOUNT,
        &config(),
    );
    assert_eq!(r.unwrap().0, shares);
}

#[test]
fn remove_liquidity_pays_a_share_of_both_reserves() {
    let state = pool_with_fee(0);
    let r = state.remove_liquidity(
        ALICE,
        PoolId(SHARE),
        50 * ONE,
        200 * ONE,
        (100 * ONE, 300 * ONE),
        200 * ONE,
        POOL_ACCOUNT,
        &config(),
    );
    let (amounts, actions, _) = r.unwrap();
    assert_eq!(amounts, (25 * ONE, 75 * ONE));
    assert!(actions.contains(&CurrencyAction::Withdraw { asset: SHARE, who: ALICE, amount: 50 * ONE }));
    let cfg = config();
    let remove = |amount: u128, share_balance: u128, issuance: u128| {
        state
            .remove_liquidity(ALICE, PoolId(SHARE), amount, share_balance, (ONE, ONE), issuance, POOL_ACCOUNT, &cfg)
            .err()
    };
    assert_eq!(remove(0, ONE, 2 * ONE), Some(StablewapError::InvalidAssetAmount));
    assert_eq!(remove(ONE + 1, ONE, 2 * ONE), Some(StablewapError::InsufficientShares));
    assert_eq!(remove(ONE, ONE, ONE + 999), Some(StablewapError::InsufficientLiquidityRemaining));
    assert_eq!(remove(ONE, ONE, ONE + 1_000), None);
}

#[test]
fn sell_with_amount_out_takes_the_fee_from_the_amount_out() {
    let state = pool_with_fee(10);
    let r = state.sell_with_amount_out(
        BOB,
        PoolId(SHARE),
        1,
        2,
        10 * ONE,
        0,
        10 * ONE,
        POOL_ACCOUNT,
        &config(),
        Some(9 * ONE),
    );
    let (amount_out, actions, event) = r.unwrap();
    assert_eq!(amount_out, 8_100_000_000_000);
    assert_eq!(
        actions,
        vec![
            CurrencyAction::Transfer { asset: 1, from: BOB, to: POOL_ACCOUNT, amount: 10 * ONE },
            CurrencyAction::Transfer { asset: 2, from: POOL_ACCOUNT, to: BOB, amount: 8_100_000_000_000 },
        ]
    );
    assert!(matches!(event, StablewapEvent::SellExecuted { fee: 900_000_000_000, .. }));
}

#[test]
fn stablewap_sell_errors() {
    let state = pool_with_fee(10);
    let cfg = config();
    let sell = |pool: u32, asset_in: u32, amount: u128, min_buy: u128, balance: u128, out: Option<u128>| {
        state.sell_with_amount_out(BOB, PoolId(pool), asset_in, 2, amount, min_buy, balance, POOL_ACCOUNT, &cfg, out).err()
    };
    assert_eq!(sell(SHARE, 1, 999, 0, ONE, Some(ONE)), Some(StablewapError::InsufficientTradingAmount));
    assert_eq!(sell(SHARE, 1, ONE, 0, 0, Some(ONE)), Some(StablewapError::InsufficientBalance));
    assert_eq!(sell(SHARE + 1, 1, ONE, 0, ONE, Some(ONE)), Some(StablewapError::PoolNotFound));
    assert_eq!(sell(SHARE, 7, ONE, 0, ONE, Some(ONE)), Some(StablewapError::AssetNotInPool));
    assert_eq!(sell(SHARE, 1, ONE, 0, ONE, None), Some(StablewapError::Overflow));
    assert_eq!(sell(SHARE, 1, ONE, ONE, ONE, Some(ONE)), Some(StablewapError::BuyLimitNotReached));
}

#[test]
fn sell_through_the_curve_pays_a_little_less_than_a_balanced_pool_takes() {
    let state = pool_with_fee(0);
    let r = state.sell(
        BOB,
        PoolId(SHARE),
        1,
        2,
        10 * ONE,
        0,
        10 * ONE,
        1_000 * ONE,
        1_000 * ONE,
        POOL_ACCOUNT,
        &config(),
    );
    let (amount_out, _, _) = r.unwrap();
    assert!(amount_out < 10 * ONE);
    assert!(amount_out > 9_900_000_000_000);
}

#[test]
fn buy_with_amount_in_adds_the_fee() {
    let state = pool_with_fee(10);
    let r = state.buy_with_amount_in(
        BOB,
        PoolId(SHARE),
        2,
        1,
        10 * ONE,
        20 * ONE,
        20 * ONE,
        100 * ONE,
        POOL_ACCOUNT,
        &config(),
        Some(10 * ONE + 1),
    );
    let (amount_in, actions, event) = r.unwrap();
    assert_eq!(amount_in, 11 * ONE + 2);
    assert_eq!(
        actions,
        vec![
            CurrencyAction::Transfer { asset: 1, from: BOB, to: POOL_ACCOUNT, amount: 11 * ONE + 2 },
            CurrencyAction::Transfer { asset: 2, from: POOL_ACCOUNT, to: BOB, amount: 10 * ONE },
        ]
    );
    assert!(matches!(event, StablewapEvent::BuyExecuted { fee: 1_000_000_000_001, .. }));
}

#[test]
fn stablewap_buy_errors() {
    let state = pool_with_fee(10);
    let cfg = config();
    let buy = |amount_out: u128, max_sell: u128, balance: u128, reserve_out: u128, calc: Option<u128>| {
        state
            .buy_with_amount_in(BOB, PoolId(SHARE), 2, 1, amount_out, max_sell, balance, reserve_out, POOL_ACCOUNT, &cfg, calc)
            .err()
    };
    assert_eq!(buy(999, 2 * ONE, 2 * ONE, 10 * ONE, Some(ONE)), Some(StablewapError::InsufficientTradingAmount));
    assert_eq!(buy(ONE, 2 * ONE, 2 * ONE, ONE, Some(ONE)), Some(StablewapError::InsufficientLiquidity));
    assert_eq!(buy(ONE, 2 * ONE, 2 * ONE, 10 * ONE, None), Some(StablewapError::Overflow));
    assert_eq!(buy(ONE, 2 * ONE, 2 * ONE, 10 * ONE, Some(u128::MAX)), Some(StablewapError::Overflow));
    assert_eq!(buy(ONE, ONE, 2 * ONE, 10 * ONE, Some(ONE)), Some(StablewapError::SellLimitExceeded));
    assert_eq!(buy(ONE, 2 * ONE, ONE, 10 * ONE, Some(ONE)), Some(StablewapError::InsufficientBalance));
    assert_eq!(buy(ONE, 2 * ONE, 2 * ONE, 10 * ONE, Some(ONE)), None);
}

#[test]
fn buy_through_the_curve_asks_a_little_more_than_a_balanced_pool_gives() {
    let state = pool_with_fee(0);
    let r = state.buy(
        BOB,
        PoolId(SHARE),
        2,
        1,
        10 * ONE,
        20 * ONE,
        20 * ONE,
        1_000 * ONE,
        1_000 * ONE,
        POOL_ACCOUNT,
        &config(),
    );
    let (amount_in, _, _) = r.unwrap();
    assert!(amount_in > 10 * ONE);
    assert!(amount_in < 10_100_000_000_000);
}
