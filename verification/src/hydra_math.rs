//! Stableswap curve math of two-asset pools, computed by `hydra_dx_math`.
use vstd::prelude::*;

verus! {

/// Newton iterations used to find the invariant `D`.
pub const D_ITERATIONS: u8 = 128;

/// Newton iterations used to find a reserve `y`.
pub const Y_ITERATIONS: u8 = 64;

/// Amount that a two-asset stableswap pool pays out for `amount_in`, by the curve of
/// `hydra_dx_math::stableswap::math::calculate_out_given_in`.
pub uninterp spec fn stableswap_out_given_in(
    reserve_in: u128,
    reserve_out: u128,
    amount_in: u128,
    amplification: u128,
    precision: u128,
) -> Option<u128>;

/// Amount that a two-asset stableswap pool asks for `amount_out`, by the curve of
/// `hydra_dx_math::stableswap::math::calculate_in_given_out`.
pub uninterp spec fn stableswap_in_given_out(
    reserve_in: u128,
    reserve_out: u128,
    amount_out: u128,
    amplification: u128,
    precision: u128,
) -> Option<u128>;

/// Shares issued for liquidity that moves a two-asset pool from the initial to the updated
/// reserves, by `hydra_dx_math::stableswap::math::calculate_add_liquidity_shares`.
pub uninterp spec fn stableswap_add_liquidity_shares(
    initial_a: u128,
    initial_b: u128,
    updated_a: u128,
    updated_b: u128,
    amplification: u128,
    precision: u128,
    share_issuance: u128,
) -> Option<u128>;

/// `hydra_dx_math::stableswap::math::calculate_out_given_in` with the runtime's iteration
/// counts. Its source subtracts the new reserve from `reserve_out`, so a result never exceeds
/// `reserve_out`; the curve itself is only named.
#[verifier::external_body]
pub(crate) fn calculate_out_given_in(
    reserve_in: u128,
    reserve_out: u128,
    amount_in: u128,
    amplification: u128,
    precision: u128,
) -> (r: Option<u128>)
    ensures
        r == stableswap_out_given_in(reserve_in, reserve_out, amount_in, amplification, precision),
        r matches Some(v) ==> v <= reserve_out,
{
    hydra_dx_math::stableswap::math::calculate_out_given_in::<D_ITERATIONS, Y_ITERATIONS>(
        reserve_in,
        reserve_out,
        amount_in,
        amplification,
        precision,
    )
}

/// `hydra_dx_math::stableswap::math::calculate_in_given_out` with the runtime's iteration
/// counts; the curve is only named.
#[verifier::external_body]
pub(crate) fn calculate_in_given_out(
    reserve_in: u128,
    reserve_out: u128,
    amount_out: u128,
    amplification: u128,
    precision: u128,
) -> (r: Option<u128>)
    ensures
        r == stableswap_in_given_out(reserve_in, reserve_out, amount_out, amplification, precision),
{
    hydra_dx_math::stableswap::math::calculate_in_given_out::<D_ITERATIONS, Y_ITERATIONS>(
        reserve_in,
        reserve_out,
        amount_out,
        amplification,
        precision,
    )
}

/// `hydra_dx_math::stableswap::math::calculate_add_liquidity_shares` with the runtime's
/// iteration count; the result is only named.
#[verifier::external_body]
pub(crate) fn calculate_add_liquidity_shares(
    initial: (u128, u128),
    updated: (u128, u128),
    amplification: u128,
    precision: u128,
    share_issuance: u128,
) -> (r: Option<u128>)
    ensures
        r == stableswap_add_liquidity_shares(
            initial.0,
            initial.1,
            updated.0,
            updated.1,
            amplification,
            precision,
            share_issuance,
        ),
{
    hydra_dx_math::stableswap::math::calculate_add_liquidity_shares::<D_ITERATIONS>(
        &[initial.0, initial.1],
        &[updated.0, updated.1],
        amplification,
        precision,
        share_issuance,
    )
}

/// Share of a reserve that `shares` out of `share_issuance` stand for: the reserve times
/// `shares / share_issuance`, rounded down.
pub open spec fn share_of(reserve: u128, shares: u128, share_issuance: u128) -> int {
    (reserve * shares) / (share_issuance as int)
}

/// `hydra_dx_math::stableswap::math::calculate_remove_liquidity_amounts`.
///
/// By its source: `None` when `share_asset_issuance` is zero; otherwise each reserve is
/// multiplied by `shares` and divided by the issuance in 256 bits, rounding down, and the
/// result is `None` when either amount does not fit in 128 bits.
#[verifier::external_body]
pub(crate) fn calculate_remove_liquidity_amounts(
    reserves: (u128, u128),
    shares: u128,
    share_asset_issuance: u128,
) -> (r: Option<(u128, u128)>)
    ensures
        r is Some <==> (share_asset_issuance != 0 && share_of(reserves.0, shares, share_asset_issuance)
            <= u128::MAX && share_of(reserves.1, shares, share_asset_issuance) <= u128::MAX),
        r matches Some(amounts) ==> amounts.0 == share_of(reserves.0, shares, share_asset_issuance)
            && amounts.1 == share_of(reserves.1, shares, share_asset_issuance),
{
    hydra_dx_math::stableswap::math::calculate_remove_liquidity_amounts(
        &[reserves.0, reserves.1],
        shares,
        share_asset_issuance,
    )
}

} // verus!
