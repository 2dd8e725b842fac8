//! The ledger operations: market creation plus the six state transitions.
//!
//! Every transition is all-or-nothing: it either returns `Ok` with both
//! records updated, or an error with both records exactly as they were.
//! Each transition spec function below is the complete mathematical model of
//! one operation — which inputs are rejected, with which error, and what the
//! two records become on success — and the executable function is proved to
//! implement it. The host performs the matching token transfer with the
//! amounts an operation returns, and commits the records only together with
//! that transfer.

use vstd::prelude::*;

use crate::constants::MAX_LLTV;
use crate::errors::PelagoError;
use crate::health::{check_health_p1, health_spec, position_healthy};
use crate::interest::{accrue_interest, accrue_spec};
use crate::shares_math::{
    to_assets_down, to_assets_down_ok, to_assets_down_spec, to_assets_up, to_assets_up_ok,
    to_assets_up_spec, to_shares_down, to_shares_down_ok, to_shares_down_spec, to_shares_up,
    to_shares_up_ok, to_shares_up_spec,
};
use crate::state::{Market, UserPosition};

verus! {

/// Dual-parameter validity: exactly one of `assets` and `shares` is
/// non-zero. The non-zero one is the user-specified quantity; the other is
/// derived by conversion.
pub open spec fn exactly_one_zero(assets: u64, shares: u64) -> bool {
    (assets > 0 && shares == 0) || (assets == 0 && shares > 0)
}

/// Transition: create a market. Rejects a ratio of zero or above 100%; the
/// new market starts with zero totals and `now` as its accrual timestamp.
pub open spec fn initialize_market_spec(lltv: u64, now: i64) -> Result<Market, PelagoError> {
    if lltv == 0 || lltv > MAX_LLTV {
        Err(PelagoError::InvalidLltv)
    } else {
        Ok(
            Market {
                total_supply_assets: 0,
                total_supply_shares: 0,
                total_borrow_assets: 0,
                total_borrow_shares: 0,
                lltv,
                last_update: now,
            },
        )
    }
}

/// Creates a new market record.
pub fn initialize_market(lltv: u64, now: i64) -> (r: Result<Market, PelagoError>)
    ensures
        r == initialize_market_spec(lltv, now),
        r is Ok <==> 0 < lltv <= MAX_LLTV,
        r matches Ok(m) ==> m.wf() && m.liquidity_ok(),
{
    if lltv == 0 || lltv > MAX_LLTV {
        return Err(PelagoError::InvalidLltv);
    }
    Ok(
        Market {
            total_supply_assets: 0,
            total_supply_shares: 0,
            total_borrow_assets: 0,
            total_borrow_shares: 0,
            lltv,
            last_update: now,
        },
    )
}

/// The (assets, shares) pair a supply moves: shares are derived rounding
/// down when assets are given, assets rounding up when shares are given —
/// both directions favor the protocol.
pub open spec fn supply_amounts(m: Market, assets: u64, shares: u64) -> Result<
    (u64, u64),
    PelagoError,
> {
    if assets > 0 {
        if to_shares_down_ok(
            assets as int,
            m.total_supply_assets as int,
            m.total_supply_shares as int,
        ) {
            Ok(
                (
                    assets,
                    to_shares_down_spec(
                        assets as int,
                        m.total_supply_assets as int,
                        m.total_supply_shares as int,
                    ) as u64,
                ),
            )
        } else {
            Err(PelagoError::MathOverflow)
        }
    } else {
        if to_assets_up_ok(
            shares as int,
            m.total_supply_assets as int,
            m.total_supply_shares as int,
        ) {
            Ok(
                (
                    to_assets_up_spec(
                        shares as int,
                        m.total_supply_assets as int,
                        m.total_supply_shares as int,
                    ) as u64,
                    shares,
                ),
            )
        } else {
            Err(PelagoError::MathOverflow)
        }
    }
}

/// Transition: supply loan assets. After accrual and conversion the supply
/// totals and the user's supply shares grow by the moved amounts.
pub open spec fn supply_spec(m: Market, p: UserPosition, assets: u64, shares: u64, now: i64)
    -> Result<(Market, UserPosition, u64, u64), PelagoError> {
    if !exactly_one_zero(assets, shares) {
        Err(PelagoError::InconsistentInput)
    } else {
        match accrue_spec(m, now) {
            Err(e) => Err(e),
            Ok(m1) => match supply_amounts(m1, assets, shares) {
                Err(e) => Err(e),
                Ok((fa, fs)) => {
                    if p.supply_shares + fs > u64::MAX {
                        Err(PelagoError::MathOverflow)
                    } else if m1.total_supply_assets + fa > u64::MAX {
                        Err(PelagoError::MathOverflow)
                    } else if m1.total_supply_shares + fs > u64::MAX {
                        Err(PelagoError::MathOverflow)
                    } else {
                        Ok(
                            (
                                Market {
                                    total_supply_assets: (m1.total_supply_assets + fa) as u64,
                                    total_supply_shares: (m1.total_supply_shares + fs) as u64,
                                    ..m1
                                },
                                UserPosition { supply_shares: (p.supply_shares + fs) as u64, ..p },
                                fa,
                                fs,
                            ),
                        )
                    }
                },
            },
        }
    }
}

/// Supplies loan assets to the market against newly minted supply shares.
///
/// Returns the `(assets, shares)` amounts actually moved; the host must
/// transfer exactly that many loan-asset units from the user to the vault.
pub fn supply(
    market: &mut Market,
    position: &mut UserPosition,
    assets: u64,
    shares: u64,
    now: i64,
) -> (r: Result<(u64, u64), PelagoError>)
    ensures
        match supply_spec(*old(market), *old(position), assets, shares, now) {
            Ok((m2, p2, fa, fs)) => r == Ok::<(u64, u64), PelagoError>((fa, fs)) && *final(market)
                == m2 && *final(position) == p2,
            Err(e) => r == Err::<(u64, u64), PelagoError>(e) && *final(market) == *old(market)
                && *final(position) == *old(position),
        },
        old(market).liquidity_ok() ==> final(market).liquidity_ok(),
        final(market).lltv == old(market).lltv,
{
    if !((assets > 0 && shares == 0) || (assets == 0 && shares > 0)) {
        return Err(PelagoError::InconsistentInput);
    }

    // Work on a copy so a failure after accrual leaves the record untouched.
    let mut m = *market;
    match accrue_interest(&mut m, now) {
        Ok(()) => (),
        Err(e) => {
            return Err(e);
        },
    }

    let (final_assets, final_shares) = if assets > 0 {
        match to_shares_down(assets, m.total_supply_assets, m.total_supply_shares) {
            Ok(s) => (assets, s),
            Err(e) => {
                return Err(e);
            },
        }
    } else {
        match to_assets_up(shares, m.total_supply_assets, m.total_supply_shares) {
            Ok(a) => (a, shares),
            Err(e) => {
                return Err(e);
            },
        }
    };

    let new_user_shares = match position.supply_shares.checked_add(final_shares) {
        Some(v) => v,
        None => {
            return Err(PelagoError::MathOverflow);
        },
    };
    let new_total_assets = match m.total_supply_assets.checked_add(final_assets) {
        Some(v) => v,
        None => {
            return Err(PelagoError::MathOverflow);
        },
    };
    let new_total_shares = match m.total_supply_shares.checked_add(final_shares) {
        Some(v) => v,
        None => {
            return Err(PelagoError::MathOverflow);
        },
    };

    m.total_supply_assets = new_total_assets;
    m.total_supply_shares = new_total_shares;
    *market = m;
    position.supply_shares = new_user_shares;
    Ok((final_assets, final_shares))
}

/// The (assets, shares) pair a withdrawal moves: shares are derived rounding
/// up when assets are given, assets rounding down when shares are given.
pub open spec fn withdraw_amounts(m: Market, assets: u64, shares: u64) -> Result<
    (u64, u64),
    PelagoError,
> {
    if assets > 0 {
        if to_shares_up_ok(
            assets as int,
            m.total_supply_assets as int,
            m.total_supply_shares as int,
        ) {
            Ok(
                (
                    assets,
                    to_shares_up_spec(
                        assets as int,
                        m.total_supply_assets as int,
                        m.total_supply_shares as int,
                    ) as u64,
                ),
            )
        } else {
            Err(PelagoError::MathOverflow)
        }
    } else {
        if to_assets_down_ok(
            shares as int,
            m.total_supply_assets as int,
            m.total_supply_shares as int,
        ) {
            Ok(
                (
                    to_assets_down_spec(
                        shares as int,
                        m.total_supply_assets as int,
                        m.total_supply_shares as int,
                    ) as u64,
                    shares,
                ),
            )
        } else {
            Err(PelagoError::MathOverflow)
        }
    }
}

/// Transition: withdraw loan assets. The burn must be covered by the user's
/// supply shares, the totals must not underflow, and the remaining pool must
/// still cover all outstanding debt.
pub open spec fn withdraw_spec(m: Market, p: UserPosition, assets: u64, shares: u64, now: i64)
    -> Result<(Market, UserPosition, u64, u64), PelagoError> {
    if !exactly_one_zero(assets, shares) {
        Err(PelagoError::InconsistentInput)
    } else {
        match accrue_spec(m, now) {
            Err(e) => Err(e),
            Ok(m1) => match withdraw_amounts(m1, assets, shares) {
                Err(e) => Err(e),
                Ok((fa, fs)) => {
                    if p.supply_shares < fs {
                        Err(PelagoError::InsufficientSupply)
                    } else if m1.total_supply_shares < fs {
                        Err(PelagoError::MathOverflow)
                    } else if m1.total_supply_assets < fa {
                        Err(PelagoError::MathOverflow)
                    } else if m1.total_borrow_assets > m1.total_supply_assets - fa {
                        Err(PelagoError::InsufficientLiquidity)
                    } else {
                        Ok(
                            (
                                Market {
                                    total_supply_assets: (m1.total_supply_assets - fa) as u64,
                                    total_supply_shares: (m1.total_supply_shares - fs) as u64,
                                    ..m1
                                },
                                UserPosition { supply_shares: (p.supply_shares - fs) as u64, ..p },
                                fa,
                                fs,
                            ),
                        )
                    }
                },
            },
        }
    }
}

/// Withdraws loan assets from the market by burning supply shares.
///
/// Returns the `(assets, shares)` amounts actually moved; the host must
/// transfer exactly that many loan-asset units from the vault to the
/// receiver.
pub fn withdraw(
    market: &mut Market,
    position: &mut UserPosition,
    assets: u64,
    shares: u64,
    now: i64,
) -> (r: Result<(u64, u64), PelagoError>)
    ensures
        match withdraw_spec(*old(market), *old(position), assets, shares, now) {
            Ok((m2, p2, fa, fs)) => r == Ok::<(u64, u64), PelagoError>((fa, fs)) && *final(market)
                == m2 && *final(position) == p2,
            Err(e) => r == Err::<(u64, u64), PelagoError>(e) && *final(market) == *old(market)
                && *final(position) == *old(position),
        },
        r is Ok ==> final(market).liquidity_ok(),
        old(market).liquidity_ok() ==> final(market).liquidity_ok(),
        final(market).lltv == old(market).lltv,
{
    if !((assets > 0 && shares == 0) || (assets == 0 && shares > 0)) {
        return Err(PelagoError::InconsistentInput);
    }

    let mut m = *market;
    match accrue_interest(&mut m, now) {
        Ok(()) => (),
        Err(e) => {
            return Err(e);
        },
    }

    let (final_assets, final_shares) = if assets > 0 {
        match to_shares_up(assets, m.total_supply_assets, m.total_supply_shares) {
            Ok(s) => (assets, s),
            Err(e) => {
                return Err(e);
            },
        }
    } else {
        match to_assets_down(shares, m.total_supply_assets, m.total_supply_shares) {
            Ok(a) => (a, shares),
            Err(e) => {
                return Err(e);
            },
        }
    };

    let new_user_shares = match position.supply_shares.checked_sub(final_shares) {
        Some(v) => v,
        None => {
            return Err(PelagoError::InsufficientSupply);
        },
    };
    let new_total_shares = match m.total_supply_shares.checked_sub(final_shares) {
        Some(v) => v,
        None => {
            return Err(PelagoError::MathOverflow);
        },
    };
    let new_total_assets = match m.total_supply_assets.checked_sub(final_assets) {
        Some(v) => v,
        None => {
            return Err(PelagoError::MathOverflow);
        },
    };

    // Liquidity invariant: the remaining pool must still cover all debt.
    if m.total_borrow_assets > new_total_assets {
        return Err(PelagoError::InsufficientLiquidity);
    }

    m.total_supply_shares = new_total_shares;
    m.total_supply_assets = new_total_assets;
    *market = m;
    position.supply_shares = new_user_shares;
    Ok((final_assets, final_shares))
}

/// Transition: deposit collateral. No accrual and no conversion — collateral
/// is tracked one-to-one and only on the position.
pub open spec fn supply_collateral_spec(p: UserPosition, amount: u64) -> Result<
    UserPosition,
    PelagoError,
> {
    if amount == 0 {
        Err(PelagoError::ZeroAmount)
    } else if p.collateral_amount + amount > u64::MAX {
        Err(PelagoError::MathOverflow)
    } else {
        Ok(UserPosition { collateral_amount: (p.collateral_amount + amount) as u64, ..p })
    }
}

/// Deposits collateral into the position. The host must transfer exactly
/// `amount` collateral units from the user to the vault.
pub fn supply_collateral(position: &mut UserPosition, amount: u64) -> (r: Result<
    (),
    PelagoError,
>)
    ensures
        match supply_collateral_spec(*old(position), amount) {
            Ok(p2) => r == Ok::<(), PelagoError>(()) && *final(position) == p2,
            Err(e) => r == Err::<(), PelagoError>(e) && *final(position) == *old(position),
        },
{
    if amount == 0 {
        return Err(PelagoError::ZeroAmount);
    }
    let new_collateral = match position.collateral_amount.checked_add(amount) {
        Some(v) => v,
        None => {
            return Err(PelagoError::MathOverflow);
        },
    };
    position.collateral_amount = new_collateral;
    Ok(())
}

/// Transition: withdraw collateral. After accrual the reduced position must
/// still be solvent; the solvency evaluator runs on the tentatively reduced
/// collateral.
pub open spec fn withdraw_collateral_spec(m: Market, p: UserPosition, assets: u64, now: i64)
    -> Result<(Market, UserPosition), PelagoError> {
    if assets == 0 {
        Err(PelagoError::ZeroAmount)
    } else {
        match accrue_spec(m, now) {
            Err(e) => Err(e),
            Ok(m1) => {
                if p.collateral_amount < assets {
                    Err(PelagoError::InsufficientCollateral)
                } else {
                    let p2 = UserPosition {
                        collateral_amount: (p.collateral_amount - assets) as u64,
                        ..p
                    };
                    match health_spec(m1, p2) {
                        Err(e) => Err(e),
                        Ok(_) => Ok((m1, p2)),
                    }
                }
            },
        }
    }
}

/// Withdraws collateral from the position, provided it stays solvent.
///
/// The host must transfer exactly `assets` collateral units from the vault
/// to the receiver.
pub fn withdraw_collateral(
    market: &mut Market,
    position: &mut UserPosition,
    assets: u64,
    now: i64,
) -> (r: Result<(), PelagoError>)
    requires
        old(market).wf(),
    ensures
        match withdraw_collateral_spec(*old(market), *old(position), assets, now) {
            Ok((m2, p2)) => r == Ok::<(), PelagoError>(()) && *final(market) == m2
                && *final(position) == p2,
            Err(e) => r == Err::<(), PelagoError>(e) && *final(market) == *old(market)
                && *final(position) == *old(position),
        },
        r is Ok ==> position_healthy(*final(market), *final(position)),
        old(market).liquidity_ok() ==> final(market).liquidity_ok(),
        final(market).lltv == old(market).lltv,
{
    if assets == 0 {
        return Err(PelagoError::ZeroAmount);
    }

    let mut m = *market;
    match accrue_interest(&mut m, now) {
        Ok(()) => (),
        Err(e) => {
            return Err(e);
        },
    }

    let new_collateral = match position.collateral_amount.checked_sub(assets) {
        Some(v) => v,
        None => {
            return Err(PelagoError::InsufficientCollateral);
        },
    };
    let tentative = UserPosition { collateral_amount: new_collateral, ..*position };

    // Solvency check on the tentatively reduced position.
    match check_health_p1(&m, &tentative) {
        Ok(()) => (),
        Err(e) => {
            return Err(e);
        },
    }

    *market = m;
    *position = tentative;
    Ok(())
}

/// The (assets, shares) pair a borrow moves: debt shares are derived
/// rounding up when assets are given, paid-out assets rounding down when
/// shares are given.
pub open spec fn borrow_amounts(m: Market, assets: u64, shares: u64) -> Result<
    (u64, u64),
    PelagoError,
> {
    if assets > 0 {
        if to_shares_up_ok(
            assets as int,
            m.total_borrow_assets as int,
            m.total_borrow_shares as int,
        ) {
            Ok(
                (
                    assets,
                    to_shares_up_spec(
                        assets as int,
                        m.total_borrow_assets as int,
                        m.total_borrow_shares as int,
                    ) as u64,
                ),
            )
        } else {
            Err(PelagoError::MathOverflow)
        }
    } else {
        if to_assets_down_ok(
            shares as int,
            m.total_borrow_assets as int,
            m.total_borrow_shares as int,
        ) {
            Ok(
                (
                    to_assets_down_spec(
                        shares as int,
                        m.total_borrow_assets as int,
                        m.total_borrow_shares as int,
                    ) as u64,
                    shares,
                ),
            )
        } else {
            Err(PelagoError::MathOverflow)
        }
    }
}

/// Transition: borrow loan assets. The pool must have the liquidity, the
/// grown totals must fit, and the position — with its new debt — must pass
/// the solvency check.
pub open spec fn borrow_spec(m: Market, p: UserPosition, assets: u64, shares: u64, now: i64)
    -> Result<(Market, UserPosition, u64, u64), PelagoError> {
    if !exactly_one_zero(assets, shares) {
        Err(PelagoError::InconsistentInput)
    } else {
        match accrue_spec(m, now) {
            Err(e) => Err(e),
            Ok(m1) => match borrow_amounts(m1, assets, shares) {
                Err(e) => Err(e),
                Ok((fa, fs)) => {
                    if m1.total_supply_assets < m1.total_borrow_assets {
                        Err(PelagoError::MathOverflow)
                    } else if m1.total_supply_assets - m1.total_borrow_assets < fa {
                        Err(PelagoError::InsufficientLiquidity)
                    } else if p.borrow_shares + fs > u64::MAX {
                        Err(PelagoError::MathOverflow)
                    } else if m1.total_borrow_assets + fa > u64::MAX {
                        Err(PelagoError::MathOverflow)
                    } else if m1.total_borrow_shares + fs > u64::MAX {
                        Err(PelagoError::MathOverflow)
                    } else {
                        let m2 = Market {
                            total_borrow_assets: (m1.total_borrow_assets + fa) as u64,
                            total_borrow_shares: (m1.total_borrow_shares + fs) as u64,
                            ..m1
                        };
                        let p2 = UserPosition { borrow_shares: (p.borrow_shares + fs) as u64, ..p };
                        match health_spec(m2, p2) {
                            Err(e) => Err(e),
                            Ok(_) => Ok((m2, p2, fa, fs)),
                        }
                    }
                },
            },
        }
    }
}

/// Borrows loan assets against the position's collateral.
///
/// Returns the `(assets, shares)` amounts actually moved; the host must
/// transfer exactly that many loan-asset units from the vault to the user.
pub fn borrow(
    market: &mut Market,
    position: &mut UserPosition,
    assets: u64,
    shares: u64,
    now: i64,
) -> (r: Result<(u64, u64), PelagoError>)
    requires
        old(market).wf(),
    ensures
        match borrow_spec(*old(market), *old(position), assets, shares, now) {
            Ok((m2, p2, fa, fs)) => r == Ok::<(u64, u64), PelagoError>((fa, fs)) && *final(market)
                == m2 && *final(position) == p2,
            Err(e) => r == Err::<(u64, u64), PelagoError>(e) && *final(market) == *old(market)
                && *final(position) == *old(position),
        },
        r is Ok ==> position_healthy(*final(market), *final(position)),
        r is Ok ==> final(market).liquidity_ok(),
        old(market).liquidity_ok() ==> final(market).liquidity_ok(),
        final(market).lltv == old(market).lltv,
{
    if !((assets > 0 && shares == 0) || (assets == 0 && shares > 0)) {
        return Err(PelagoError::InconsistentInput);
    }

    let mut m = *market;
    match accrue_interest(&mut m, now) {
        Ok(()) => (),
        Err(e) => {
            return Err(e);
        },
    }

    let (final_assets, final_shares) = if assets > 0 {
        match to_shares_up(assets, m.total_borrow_assets, m.total_borrow_shares) {
            Ok(s) => (assets, s),
            Err(e) => {
                return Err(e);
            },
        }
    } else {
        match to_assets_down(shares, m.total_borrow_assets, m.total_borrow_shares) {
            Ok(a) => (a, shares),
            Err(e) => {
                return Err(e);
            },
        }
    };

    // The pool must have the liquidity before any debt is recorded.
    let available_liquidity = match m.total_supply_assets.checked_sub(m.total_borrow_assets) {
        Some(v) => v,
        None => {
            return Err(PelagoError::MathOverflow);
        },
    };
    if available_liquidity < final_assets {
        return Err(PelagoError::InsufficientLiquidity);
    }

    let new_user_shares = match position.borrow_shares.checked_add(final_shares) {
        Some(v) => v,
        None => {
            return Err(PelagoError::MathOverflow);
        },
    };
    let new_total_assets = match m.total_borrow_assets.checked_add(final_assets) {
        Some(v) => v,
        None => {
            return Err(PelagoError::MathOverflow);
        },
    };
    let new_total_shares = match m.total_borrow_shares.checked_add(final_shares) {
        Some(v) => v,
        None => {
            return Err(PelagoError::MathOverflow);
        },
    };

    m.total_borrow_assets = new_total_assets;
    m.total_borrow_shares = new_total_shares;
    let tentative = UserPosition { borrow_shares: new_user_shares, ..*position };

    // Solvency check on the tentatively indebted position.
    match check_health_p1(&m, &tentative) {
        Ok(()) => (),
        Err(e) => {
            return Err(e);
        },
    }

    *market = m;
    *position = tentative;
    Ok((final_assets, final_shares))
}

/// The (assets, shares) pair a repayment moves: burnt shares are derived
/// rounding down when assets are given, paid-in assets rounding up when
/// shares are given.
pub open spec fn repay_amounts(m: Market, assets: u64, shares: u64) -> Result<
    (u64, u64),
    PelagoError,
> {
    if assets > 0 {
        if to_shares_down_ok(
            assets as int,
            m.total_borrow_assets as int,
            m.total_borrow_shares as int,
        ) {
            Ok(
                (
                    assets,
                    to_shares_down_spec(
                        assets as int,
                        m.total_borrow_assets as int,
                        m.total_borrow_shares as int,
                    ) as u64,
                ),
            )
        } else {
            Err(PelagoError::MathOverflow)
        }
    } else {
        if to_assets_up_ok(
            shares as int,
            m.total_borrow_assets as int,
            m.total_borrow_shares as int,
        ) {
            Ok(
                (
                    to_assets_up_spec(
                        shares as int,
                        m.total_borrow_assets as int,
                        m.total_borrow_shares as int,
                    ) as u64,
                    shares,
                ),
            )
        } else {
            Err(PelagoError::MathOverflow)
        }
    }
}

/// Floor-at-zero subtraction: the rounding tolerance repay relies on.
pub open spec fn zero_floor_sub(x: u64, y: u64) -> u64 {
    if x >= y {
        (x - y) as u64
    } else {
        0u64
    }
}

/// Transition: repay debt. The two sides of a conversion can disagree by one
/// unit, so every subtraction floors at zero instead of failing — repaying
/// one unit more than the recorded debt clamps the totals to exactly zero.
pub open spec fn repay_spec(m: Market, p: UserPosition, assets: u64, shares: u64, now: i64)
    -> Result<(Market, UserPosition, u64, u64), PelagoError> {
    if !exactly_one_zero(assets, shares) {
        Err(PelagoError::InconsistentInput)
    } else {
        match accrue_spec(m, now) {
            Err(e) => Err(e),
            Ok(m1) => match repay_amounts(m1, assets, shares) {
                Err(e) => Err(e),
                Ok((fa, fs)) => Ok(
                    (
                        Market {
                            total_borrow_assets: zero_floor_sub(m1.total_borrow_assets, fa),
                            total_borrow_shares: zero_floor_sub(m1.total_borrow_shares, fs),
                            ..m1
                        },
                        UserPosition { borrow_shares: zero_floor_sub(p.borrow_shares, fs), ..p },
                        fa,
                        fs,
                    ),
                ),
            },
        }
    }
}

/// Repays debt by burning borrow shares.
///
/// Returns the `(assets, shares)` amounts actually moved; the host must
/// transfer exactly that many loan-asset units from the payer to the vault.
pub fn repay(
    market: &mut Market,
    position: &mut UserPosition,
    assets: u64,
    shares: u64,
    now: i64,
) -> (r: Result<(u64, u64), PelagoError>)
    ensures
        match repay_spec(*old(market), *old(position), assets, shares, now) {
            Ok((m2, p2, fa, fs)) => r == Ok::<(u64, u64), PelagoError>((fa, fs)) && *final(market)
                == m2 && *final(position) == p2,
            Err(e) => r == Err::<(u64, u64), PelagoError>(e) && *final(market) == *old(market)
                && *final(position) == *old(position),
        },
        old(market).liquidity_ok() ==> final(market).liquidity_ok(),
        final(market).lltv == old(market).lltv,
{
    if !((assets > 0 && shares == 0) || (assets == 0 && shares > 0)) {
        return Err(PelagoError::InconsistentInput);
    }

    let mut m = *market;
    match accrue_interest(&mut m, now) {
        Ok(()) => (),
        Err(e) => {
            return Err(e);
        },
    }

    let (final_assets, final_shares) = if assets > 0 {
        match to_shares_down(assets, m.total_borrow_assets, m.total_borrow_shares) {
            Ok(s) => (assets, s),
            Err(e) => {
                return Err(e);
            },
        }
    } else {
        match to_assets_up(shares, m.total_borrow_assets, m.total_borrow_shares) {
            Ok(a) => (a, shares),
            Err(e) => {
                return Err(e);
            },
        }
    };

    // Floor-at-zero subtraction handles the one-unit rounding overshoot.
    position.borrow_shares = position.borrow_shares.saturating_sub(final_shares);
    m.total_borrow_shares = m.total_borrow_shares.saturating_sub(final_shares);
    m.total_borrow_assets = m.total_borrow_assets.saturating_sub(final_assets);

    *market = m;
    Ok((final_assets, final_shares))
}

} // verus!
