//! Virtual-shares conversion arithmetic.
//!
//! Every conversion between an asset quantity and a share quantity is offset
//! by the fixed virtual amounts [`VIRTUAL_SHARES`] and [`VIRTUAL_ASSETS`], so
//! the denominators are never zero and an early depositor cannot manipulate
//! the share price. Intermediate products are computed in 128 bits; a product
//! or a narrowed result that does not fit is reported as
//! [`PelagoError::MathOverflow`], never silently wrapped.

use vstd::arithmetic::div_mod::{lemma_div_is_ordered, lemma_div_multiples_vanish};
use vstd::arithmetic::mul::{lemma_mul_inequality, lemma_mul_nonnegative};
use vstd::prelude::*;

use crate::constants::{VIRTUAL_ASSETS, VIRTUAL_SHARES};
use crate::errors::PelagoError;

verus! {

/// Mathematical value of `to_shares_down`: assets times the offset share
/// supply, divided by the offset asset pool, rounded down.
pub open spec fn to_shares_down_spec(assets: int, total_assets: int, total_shares: int) -> int {
    (assets * (total_shares + VIRTUAL_SHARES)) / (total_assets + VIRTUAL_ASSETS)
}

/// Mathematical value of `to_shares_up`: the same quotient rounded up.
pub open spec fn to_shares_up_spec(assets: int, total_assets: int, total_shares: int) -> int {
    (assets * (total_shares + VIRTUAL_SHARES) + (total_assets + VIRTUAL_ASSETS)
        - 1) / (total_assets + VIRTUAL_ASSETS)
}

/// Mathematical value of `to_assets_down`: shares times the offset asset
/// pool, divided by the offset share supply, rounded down.
pub open spec fn to_assets_down_spec(shares: int, total_assets: int, total_shares: int) -> int {
    (shares * (total_assets + VIRTUAL_ASSETS)) / (total_shares + VIRTUAL_SHARES)
}

/// Mathematical value of `to_assets_up`: the same quotient rounded up.
pub open spec fn to_assets_up_spec(shares: int, total_assets: int, total_shares: int) -> int {
    (shares * (total_assets + VIRTUAL_ASSETS) + (total_shares + VIRTUAL_SHARES)
        - 1) / (total_shares + VIRTUAL_SHARES)
}

/// `to_shares_down` succeeds exactly when its 128-bit product and its 64-bit
/// result both fit.
pub open spec fn to_shares_down_ok(assets: int, total_assets: int, total_shares: int) -> bool {
    &&& assets * (total_shares + VIRTUAL_SHARES) <= u128::MAX
    &&& to_shares_down_spec(assets, total_assets, total_shares) <= u64::MAX
}

/// `to_shares_up` succeeds exactly when the product plus the rounding offset
/// and the 64-bit result both fit.
pub open spec fn to_shares_up_ok(assets: int, total_assets: int, total_shares: int) -> bool {
    &&& assets * (total_shares + VIRTUAL_SHARES) <= u128::MAX
    &&& assets * (total_shares + VIRTUAL_SHARES) + (total_assets + VIRTUAL_ASSETS) - 1
        <= u128::MAX
    &&& to_shares_up_spec(assets, total_assets, total_shares) <= u64::MAX
}

/// `to_assets_down` succeeds exactly when its 128-bit product and its 64-bit
/// result both fit.
pub open spec fn to_assets_down_ok(shares: int, total_assets: int, total_shares: int) -> bool {
    &&& shares * (total_assets + VIRTUAL_ASSETS) <= u128::MAX
    &&& to_assets_down_spec(shares, total_assets, total_shares) <= u64::MAX
}

/// `to_assets_up` succeeds exactly when the product plus the rounding offset
/// and the 64-bit result both fit.
pub open spec fn to_assets_up_ok(shares: int, total_assets: int, total_shares: int) -> bool {
    &&& shares * (total_assets + VIRTUAL_ASSETS) <= u128::MAX
    &&& shares * (total_assets + VIRTUAL_ASSETS) + (total_shares + VIRTUAL_SHARES) - 1
        <= u128::MAX
    &&& to_assets_up_spec(shares, total_assets, total_shares) <= u64::MAX
}

/// Converts assets to shares, rounding down (used where the protocol mints
/// shares: supply by assets, repay by assets).
pub fn to_shares_down(assets: u64, total_assets: u64, total_shares: u64) -> (r: Result<
    u64,
    PelagoError,
>)
    ensures
        to_shares_down_ok(assets as int, total_assets as int, total_shares as int) ==> r
            == Ok::<u64, PelagoError>(
            to_shares_down_spec(assets as int, total_assets as int, total_shares as int) as u64,
        ),
        !to_shares_down_ok(assets as int, total_assets as int, total_shares as int) ==> r
            == Err::<u64, PelagoError>(PelagoError::MathOverflow),
{
    let assets_u128 = assets as u128;
    let total_assets_u128 = (total_assets as u128) + VIRTUAL_ASSETS;
    let total_shares_u128 = (total_shares as u128) + VIRTUAL_SHARES;

    let numerator = match assets_u128.checked_mul(total_shares_u128) {
        Some(n) => n,
        None => {
            return Err(PelagoError::MathOverflow);
        },
    };

    let shares = numerator / total_assets_u128;

    if shares > u64::MAX as u128 {
        return Err(PelagoError::MathOverflow);
    }
    Ok(shares as u64)
}

/// Converts assets to shares, rounding up (used where the protocol burns
/// shares or records debt: withdraw by assets, borrow by assets).
pub fn to_shares_up(assets: u64, total_assets: u64, total_shares: u64) -> (r: Result<
    u64,
    PelagoError,
>)
    ensures
        to_shares_up_ok(assets as int, total_assets as int, total_shares as int) ==> r
            == Ok::<u64, PelagoError>(
            to_shares_up_spec(assets as int, total_assets as int, total_shares as int) as u64,
        ),
        !to_shares_up_ok(assets as int, total_assets as int, total_shares as int) ==> r
            == Err::<u64, PelagoError>(PelagoError::MathOverflow),
{
    let assets_u128 = assets as u128;
    let total_assets_u128 = (total_assets as u128) + VIRTUAL_ASSETS;
    let total_shares_u128 = (total_shares as u128) + VIRTUAL_SHARES;

    let numerator = match assets_u128.checked_mul(total_shares_u128) {
        Some(n) => n,
        None => {
            return Err(PelagoError::MathOverflow);
        },
    };

    // Round up: (numerator + denominator - 1) / denominator.
    let rounded = match numerator.checked_add(total_assets_u128 - 1) {
        Some(n) => n,
        None => {
            return Err(PelagoError::MathOverflow);
        },
    };
    let shares = rounded / total_assets_u128;

    if shares > u64::MAX as u128 {
        return Err(PelagoError::MathOverflow);
    }
    Ok(shares as u64)
}

/// Converts shares to assets, rounding down (used where the protocol pays
/// out: withdraw by shares, borrow by shares).
pub fn to_assets_down(shares: u64, total_assets: u64, total_shares: u64) -> (r: Result<
    u64,
    PelagoError,
>)
    ensures
        to_assets_down_ok(shares as int, total_assets as int, total_shares as int) ==> r
            == Ok::<u64, PelagoError>(
            to_assets_down_spec(shares as int, total_assets as int, total_shares as int) as u64,
        ),
        !to_assets_down_ok(shares as int, total_assets as int, total_shares as int) ==> r
            == Err::<u64, PelagoError>(PelagoError::MathOverflow),
{
    let shares_u128 = shares as u128;
    let total_assets_u128 = (total_assets as u128) + VIRTUAL_ASSETS;
    let total_shares_u128 = (total_shares as u128) + VIRTUAL_SHARES;

    let numerator = match shares_u128.checked_mul(total_assets_u128) {
        Some(n) => n,
        None => {
            return Err(PelagoError::MathOverflow);
        },
    };

    let assets = numerator / total_shares_u128;

    if assets > u64::MAX as u128 {
        return Err(PelagoError::MathOverflow);
    }
    Ok(assets as u64)
}

/// Converts shares to assets, rounding up (used where the protocol collects
/// or values debt: supply by shares, repay by shares, the health check).
pub fn to_assets_up(shares: u64, total_assets: u64, total_shares: u64) -> (r: Result<
    u64,
    PelagoError,
>)
    ensures
        to_assets_up_ok(shares as int, total_assets as int, total_shares as int) ==> r
            == Ok::<u64, PelagoError>(
            to_assets_up_spec(shares as int, total_assets as int, total_shares as int) as u64,
        ),
        !to_assets_up_ok(shares as int, total_assets as int, total_shares as int) ==> r
            == Err::<u64, PelagoError>(PelagoError::MathOverflow),
{
    let shares_u128 = shares as u128;
    let total_assets_u128 = (total_assets as u128) + VIRTUAL_ASSETS;
    let total_shares_u128 = (total_shares as u128) + VIRTUAL_SHARES;

    let numerator = match shares_u128.checked_mul(total_assets_u128) {
        Some(n) => n,
        None => {
            return Err(PelagoError::MathOverflow);
        },
    };

    // Round up: (numerator + denominator - 1) / denominator.
    let rounded = match numerator.checked_add(total_shares_u128 - 1) {
        Some(n) => n,
        None => {
            return Err(PelagoError::MathOverflow);
        },
    };
    let assets = rounded / total_shares_u128;

    if assets > u64::MAX as u128 {
        return Err(PelagoError::MathOverflow);
    }
    Ok(assets as u64)
}

/// Round-trip monotonicity, asset-to-share direction: for the same inputs the
/// up-rounded conversion never falls below the down-rounded one.
pub proof fn lemma_to_shares_up_ge_down(assets: int, total_assets: int, total_shares: int)
    requires
        0 <= assets,
        0 <= total_assets,
        0 <= total_shares,
    ensures
        to_shares_down_spec(assets, total_assets, total_shares) <= to_shares_up_spec(
            assets,
            total_assets,
            total_shares,
        ),
{
    let n = assets * (total_shares + VIRTUAL_SHARES);
    let d = total_assets + VIRTUAL_ASSETS;
    lemma_mul_nonnegative(assets, total_shares + VIRTUAL_SHARES);
    lemma_div_is_ordered(n, n + d - 1, d);
}

/// Round-trip monotonicity, share-to-asset direction.
pub proof fn lemma_to_assets_up_ge_down(shares: int, total_assets: int, total_shares: int)
    requires
        0 <= shares,
        0 <= total_assets,
        0 <= total_shares,
    ensures
        to_assets_down_spec(shares, total_assets, total_shares) <= to_assets_up_spec(
            shares,
            total_assets,
            total_shares,
        ),
{
    let n = shares * (total_assets + VIRTUAL_ASSETS);
    let d = total_shares + VIRTUAL_SHARES;
    lemma_mul_nonnegative(shares, total_assets + VIRTUAL_ASSETS);
    lemma_div_is_ordered(n, n + d - 1, d);
}

/// On an empty market both rounding directions degenerate to plain
/// multiplication by the virtual share offset: depositing `assets` yields
/// exactly `assets * VIRTUAL_SHARES` shares.
pub proof fn lemma_first_deposit_exact(assets: int)
    requires
        0 <= assets,
    ensures
        to_shares_down_spec(assets, 0, 0) == assets * VIRTUAL_SHARES,
        to_shares_up_spec(assets, 0, 0) == assets * VIRTUAL_SHARES,
{
    lemma_mul_nonnegative(assets, VIRTUAL_SHARES as int);
}

/// On an empty market the share-to-asset direction likewise degenerates to
/// plain division by the virtual share offset, floored or ceiled per the
/// rounding direction.
pub proof fn lemma_first_redemption_exact(shares: int)
    requires
        0 <= shares,
    ensures
        to_assets_down_spec(shares, 0, 0) == shares / (VIRTUAL_SHARES as int),
        to_assets_up_spec(shares, 0, 0) == (shares + VIRTUAL_SHARES - 1) / (
        VIRTUAL_SHARES as int),
{
}

/// Virtual-shares protection: as long as the offset share supply is at least
/// the offset asset pool (share price at most one), a depositor receives at
/// least one share per asset unit, so a positive deposit always yields
/// strictly positive shares.
pub proof fn lemma_deposit_shares_not_below_assets(
    assets: int,
    total_assets: int,
    total_shares: int,
)
    requires
        0 < assets,
        0 <= total_assets,
        0 <= total_shares,
        total_assets + VIRTUAL_ASSETS <= total_shares + VIRTUAL_SHARES,
    ensures
        to_shares_down_spec(assets, total_assets, total_shares) >= assets,
{
    let n = total_shares + VIRTUAL_SHARES;
    let d = total_assets + VIRTUAL_ASSETS;
    lemma_mul_inequality(d, n, assets);
    assert(assets * d == d * assets) by (nonlinear_arith);
    assert(assets * n == n * assets) by (nonlinear_arith);
    lemma_div_is_ordered(assets * d, assets * n, d);
    lemma_div_multiples_vanish(assets, d);
}

} // verus!
