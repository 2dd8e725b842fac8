//! Solvency evaluator.
//!
//! A position with no debt is always healthy. Otherwise its debt shares are
//! resolved into loan-asset value with rounding up — the conservative
//! direction, so the check never under-estimates a debt — and compared
//! against the collateral value scaled by the market's loan-to-value ratio.

use vstd::arithmetic::div_mod::lemma_div_is_ordered;
use vstd::arithmetic::mul::lemma_mul_upper_bound;
use vstd::prelude::*;

use crate::constants::{FIXED_ORACLE_PRICE, LLTV_PRECISION, PRICE_PRECISION};
use crate::errors::PelagoError;
use crate::shares_math::{to_assets_up, to_assets_up_ok, to_assets_up_spec};
use crate::state::{Market, UserPosition};

verus! {

/// Collateral value in loan-asset units: amount times the oracle price,
/// scaled back by the price precision.
pub open spec fn collateral_value_spec(collateral: int) -> int {
    collateral * FIXED_ORACLE_PRICE / PRICE_PRECISION as int
}

/// Largest debt value the collateral justifies: collateral value scaled by
/// the market's loan-to-value ratio.
pub open spec fn max_borrow_value_spec(collateral: int, lltv: int) -> int {
    collateral_value_spec(collateral) * lltv / LLTV_PRECISION as int
}

/// Debt value of a position: its borrow shares resolved into assets,
/// rounded up.
pub open spec fn debt_value_spec(m: Market, p: UserPosition) -> int {
    to_assets_up_spec(
        p.borrow_shares as int,
        m.total_borrow_assets as int,
        m.total_borrow_shares as int,
    )
}

/// Outcome of the solvency check: healthy, undercollateralized, or an
/// arithmetic failure while resolving the debt shares.
pub open spec fn health_spec(m: Market, p: UserPosition) -> Result<(), PelagoError> {
    if p.borrow_shares == 0 {
        Ok(())
    } else if !to_assets_up_ok(
        p.borrow_shares as int,
        m.total_borrow_assets as int,
        m.total_borrow_shares as int,
    ) {
        Err(PelagoError::MathOverflow)
    } else if debt_value_spec(m, p) <= max_borrow_value_spec(
        p.collateral_amount as int,
        m.lltv as int,
    ) {
        Ok(())
    } else {
        Err(PelagoError::InsufficientCollateral)
    }
}

/// True when the position may be left in its current state.
pub open spec fn position_healthy(m: Market, p: UserPosition) -> bool {
    health_spec(m, p) == Ok::<(), PelagoError>(())
}

/// Decides whether `position` is solvent against `market`.
///
/// Returns `Ok(())` for a healthy position and
/// [`PelagoError::InsufficientCollateral`] for an undercollateralized one;
/// the caller must abort its whole operation on any error.
pub fn check_health_p1(market: &Market, position: &UserPosition) -> (r: Result<(), PelagoError>)
    requires
        market.wf(),
    ensures
        r == health_spec(*market, *position),
        r == Ok::<(), PelagoError>(()) <==> position_healthy(*market, *position),
{
    // No debt: trivially solvent.
    if position.borrow_shares == 0 {
        return Ok(());
    }

    // Resolve the debt shares into assets, rounding up (conservative).
    let borrow_value = match to_assets_up(
        position.borrow_shares,
        market.total_borrow_assets,
        market.total_borrow_shares,
    ) {
        Ok(v) => v,
        Err(e) => {
            return Err(e);
        },
    };

    // collateral_value = collateral_amount * price / PRICE_PRECISION.
    // The product is at most u64::MAX * FIXED_ORACLE_PRICE, far below the
    // 128-bit limit.
    let collateral_value = (position.collateral_amount as u128) * (FIXED_ORACLE_PRICE as u128)
        / (PRICE_PRECISION as u128);

    // max_borrow_value = collateral_value * lltv / LLTV_PRECISION. Market
    // well-formedness bounds lltv, so this cannot overflow either.
    proof {
        lemma_div_is_ordered(
            position.collateral_amount as int * FIXED_ORACLE_PRICE,
            u64::MAX as int * FIXED_ORACLE_PRICE,
            PRICE_PRECISION as int,
        );
        lemma_mul_upper_bound(
            collateral_value as int,
            u64::MAX as int * FIXED_ORACLE_PRICE / PRICE_PRECISION as int,
            market.lltv as int,
            LLTV_PRECISION as int,
        );
    }
    let max_borrow_value = collateral_value * (market.lltv as u128) / (LLTV_PRECISION as u128);

    if (borrow_value as u128) <= max_borrow_value {
        Ok(())
    } else {
        Err(PelagoError::InsufficientCollateral)
    }
}

} // verus!
