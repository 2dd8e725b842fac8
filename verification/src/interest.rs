//! Linear interest accrual.
//!
//! A flat 5% annual rate, expressed in WAD fixed point, is applied to the
//! market's outstanding debt in proportion to the elapsed time. The interest
//! is added to both the borrow side and the supply side (there is no fee
//! skim), which is what keeps the liquidity invariant stable across time.

use vstd::arithmetic::div_mod::{
    lemma_div_is_ordered, lemma_fundamental_div_mod, lemma_hoist_over_denominator,
};
use vstd::arithmetic::mul::{
    lemma_mul_is_distributive_add, lemma_mul_is_distributive_add_other_way,
    lemma_mul_nonnegative,
};
use vstd::prelude::*;

use crate::constants::{FIXED_ANNUAL_RATE_WAD, SECONDS_PER_YEAR, WAD};
use crate::errors::PelagoError;
use crate::state::Market;

verus! {

/// Interest rate per second: the annual WAD rate spread over a year, floored.
pub open spec fn rate_per_second() -> int {
    FIXED_ANNUAL_RATE_WAD as int / SECONDS_PER_YEAR as int
}

/// Interest owed on `principal` over `elapsed` seconds: linear, floored only
/// after the full product.
pub open spec fn interest_spec(principal: int, elapsed: int) -> int {
    principal * rate_per_second() * elapsed / WAD as int
}

/// The accrual transition. `elapsed == 0` is a successful no-op; a clock that
/// went backwards (or out of the 64-bit range) is a fatal timestamp error;
/// any intermediate product or updated total that does not fit is a fatal
/// arithmetic error. Otherwise both asset totals grow by the same interest
/// and the accrual timestamp advances to `now`.
pub open spec fn accrue_spec(m: Market, now: i64) -> Result<Market, PelagoError> {
    let elapsed = now - m.last_update;
    if elapsed == 0 {
        Ok(m)
    } else if elapsed < 0 || elapsed > i64::MAX {
        Err(PelagoError::InvalidTimestamp)
    } else if m.total_borrow_assets * rate_per_second() > u128::MAX
        || m.total_borrow_assets * rate_per_second() * elapsed > u128::MAX {
        Err(PelagoError::MathOverflow)
    } else {
        let interest = interest_spec(m.total_borrow_assets as int, elapsed);
        if interest > u64::MAX || m.total_borrow_assets + interest > u64::MAX
            || m.total_supply_assets + interest > u64::MAX {
            Err(PelagoError::MathOverflow)
        } else {
            Ok(
                Market {
                    total_supply_assets: (m.total_supply_assets + interest) as u64,
                    total_borrow_assets: (m.total_borrow_assets + interest) as u64,
                    last_update: now,
                    ..m
                },
            )
        }
    }
}

/// True when the accrual transition succeeds.
pub open spec fn accrues(m: Market, now: i64) -> bool {
    accrue_spec(m, now) is Ok
}

/// The market after a successful accrual (the market itself when accrual
/// fails, so the function is total).
pub open spec fn accrued(m: Market, now: i64) -> Market {
    match accrue_spec(m, now) {
        Ok(m2) => m2,
        Err(_) => m,
    }
}

/// Accrues interest for `market` for the time elapsed since its last update.
///
/// Must run as the first step of every operation that reads or mutates the
/// pooled totals, so conversions always act on up-to-date balances.
pub fn accrue_interest(market: &mut Market, now: i64) -> (r: Result<(), PelagoError>)
    ensures
        match accrue_spec(*old(market), now) {
            Ok(m2) => r == Ok::<(), PelagoError>(()) && *final(market) == m2,
            Err(e) => r == Err::<(), PelagoError>(e) && *final(market) == *old(market),
        },
        old(market).liquidity_ok() ==> final(market).liquidity_ok(),
        final(market).lltv == old(market).lltv,
        final(market).total_supply_shares == old(market).total_supply_shares,
        final(market).total_borrow_shares == old(market).total_borrow_shares,
        now == old(market).last_update ==> r == Ok::<(), PelagoError>(()) && *final(market)
            == *old(market),
{
    let elapsed = match now.checked_sub(market.last_update) {
        Some(e) => e,
        None => {
            return Err(PelagoError::InvalidTimestamp);
        },
    };
    if elapsed == 0 {
        return Ok(());
    }
    if elapsed < 0 {
        return Err(PelagoError::InvalidTimestamp);
    }

    let rate = FIXED_ANNUAL_RATE_WAD / SECONDS_PER_YEAR;

    let scaled = match (market.total_borrow_assets as u128).checked_mul(rate) {
        Some(p) => p,
        None => {
            return Err(PelagoError::MathOverflow);
        },
    };
    let product = match scaled.checked_mul(elapsed as u128) {
        Some(p) => p,
        None => {
            return Err(PelagoError::MathOverflow);
        },
    };
    let interest = product / WAD;

    if interest > u64::MAX as u128 {
        return Err(PelagoError::MathOverflow);
    }
    let interest_u64 = interest as u64;

    // Compute both updated totals before committing either, so a failure
    // leaves the record untouched.
    let new_borrow = match market.total_borrow_assets.checked_add(interest_u64) {
        Some(v) => v,
        None => {
            return Err(PelagoError::MathOverflow);
        },
    };
    let new_supply = match market.total_supply_assets.checked_add(interest_u64) {
        Some(v) => v,
        None => {
            return Err(PelagoError::MathOverflow);
        },
    };

    market.total_borrow_assets = new_borrow;
    market.total_supply_assets = new_supply;
    market.last_update = now;
    Ok(())
}

/// Idempotent no-op: accruing at the market's own timestamp changes nothing.
pub proof fn lemma_accrue_idempotent(m: Market)
    ensures
        accrue_spec(m, m.last_update) == Ok::<Market, PelagoError>(m),
{
}

/// Calling accrue twice at the same timestamp changes nothing on the second
/// call: a successful accrual advances `last_update` to `now`, after which a
/// second accrual at `now` is the no-op case.
pub proof fn lemma_accrue_twice_same_time(m: Market, now: i64)
    requires
        accrues(m, now),
    ensures
        accrue_spec(accrued(m, now), now) == Ok::<Market, PelagoError>(accrued(m, now)),
{
}

/// Floor division distributes over a sum up to one unit:
/// `a/d + b/d <= (a+b)/d <= a/d + b/d + 1`.
proof fn lemma_div_sum_bounds(a: int, b: int, d: int)
    requires
        0 <= a,
        0 <= b,
        0 < d,
    ensures
        a / d + b / d <= (a + b) / d,
        (a + b) / d <= a / d + b / d + 1,
{
    let qa = a / d;
    let ra = a % d;
    lemma_fundamental_div_mod(a, d);
    // (a + b) / d == (b + ra) / d + qa
    lemma_hoist_over_denominator(b + ra, qa, d as nat);
    assert(qa * d == d * qa) by (nonlinear_arith);
    // b / d <= (b + ra) / d
    lemma_div_is_ordered(b, b + ra, d);
    // (b + ra) / d <= b / d + 1, since ra <= d - 1 and (b + d) / d == b / d + 1
    lemma_div_is_ordered(b + ra, b + d, d);
    lemma_hoist_over_denominator(b, 1, d as nat);
}

/// Accrual additivity: splitting one accrual over `[last_update, end]` into
/// two at an intermediate time `mid` changes each resulting total by at most
/// one unit per call, provided the interim interest is too small to earn a
/// visible unit of its own over the second leg (without that bound, two-step
/// accrual compounds on the interim interest and can drift further).
pub proof fn lemma_accrual_additivity(m: Market, mid: i64, end: i64)
    requires
        m.last_update <= mid <= end,
        accrues(m, mid),
        accrues(accrued(m, mid), end),
        accrues(m, end),
        interest_spec(m.total_borrow_assets as int, mid - m.last_update) * rate_per_second() * (
        end - mid) < WAD,
    ensures
        accrued(m, end).total_borrow_assets - 1 <= accrued(accrued(m, mid), end).total_borrow_assets
            <= accrued(m, end).total_borrow_assets + 1,
        accrued(m, end).total_supply_assets - 1 <= accrued(accrued(m, mid), end).total_supply_assets
            <= accrued(m, end).total_supply_assets + 1,
{
    let tb = m.total_borrow_assets as int;
    let t1 = mid - m.last_update;
    let t2 = end - mid;
    let r = rate_per_second();
    let w = WAD as int;
    let i1 = interest_spec(tb, t1);

    if t1 == 0 {
        // The first accrual is a no-op, the two paths coincide.
        assert(accrued(m, mid) == m);
    } else if t2 == 0 {
        // The second accrual is a no-op and the one-step accrual covers t1.
        assert(accrued(accrued(m, mid), end) == accrued(m, mid));
    } else {
        let m1 = accrued(m, mid);
        let i2 = interest_spec(m1.total_borrow_assets as int, t2);
        let i = interest_spec(tb, t1 + t2);
        let a = (tb * r) * t1;
        let b = (tb * r) * t2;
        let c = (i1 * r) * t2;

        lemma_mul_nonnegative(tb, r);
        lemma_mul_nonnegative(tb * r, t1);
        lemma_mul_nonnegative(tb * r, t2);
        lemma_mul_nonnegative(i1 * r, t2);

        // One step: i == (a + b) / w.
        lemma_mul_is_distributive_add(tb * r, t1, t2);
        assert(i == (a + b) / w);
        lemma_div_sum_bounds(a, b, w);
        assert(i1 + b / w <= i <= i1 + b / w + 1);

        // Two steps: the second leg accrues on tb + i1.
        assert(m1.total_borrow_assets == tb + i1);
        lemma_mul_is_distributive_add_other_way(r, tb, i1);
        lemma_mul_is_distributive_add_other_way(t2, tb * r, i1 * r);
        assert(((tb + i1) * r) * t2 == b + c);
        assert(i2 == (b + c) / w);

        // b / w <= i2 <= b / w + 1, since 0 <= c < w.
        lemma_div_is_ordered(b, b + c, w);
        lemma_div_is_ordered(b + c, b + w, w);
        lemma_hoist_over_denominator(b, 1, w as nat);
        assert(b / w <= i2 <= b / w + 1);

        assert(i - 1 <= i1 + i2 <= i + 1);

        let m_two = accrued(m1, end);
        let m_one = accrued(m, end);
        assert(m_two.total_borrow_assets == tb + i1 + i2);
        assert(m_one.total_borrow_assets == tb + i);
        assert(m_two.total_supply_assets == m.total_supply_assets + i1 + i2);
        assert(m_one.total_supply_assets == m.total_supply_assets + i);
    }
}

} // verus!
