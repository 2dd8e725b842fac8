//! Ledger-wide laws: statements that span several operations.
//!
//! Each operation's own contract already says that it preserves the
//! liquidity invariant; this module closes the loop and proves the
//! invariant for whole operation sequences, against whatever positions the
//! individual steps act on.

use vstd::prelude::*;

use crate::interest::accrue_spec;
use crate::ops::{
    borrow_spec, repay_spec, supply_spec, withdraw_collateral_spec, withdraw_spec,
};
use crate::state::{Market, UserPosition};

verus! {

/// One ledger operation, with the arguments its caller would pass.
pub enum LedgerOp {
    Supply(u64, u64, i64),
    Withdraw(u64, u64, i64),
    Borrow(u64, u64, i64),
    Repay(u64, u64, i64),
    SupplyCollateral(u64),
    WithdrawCollateral(u64, i64),
}

/// The market after one operation runs against position `p`: the updated
/// record when the operation succeeds, the old one when it is rejected —
/// exactly the all-or-nothing behaviour of the executable operations.
pub open spec fn market_after(m: Market, p: UserPosition, op: LedgerOp) -> Market {
    match op {
        LedgerOp::Supply(assets, shares, now) => match supply_spec(m, p, assets, shares, now) {
            Ok(r) => r.0,
            Err(_) => m,
        },
        LedgerOp::Withdraw(assets, shares, now) => match withdraw_spec(
            m,
            p,
            assets,
            shares,
            now,
        ) {
            Ok(r) => r.0,
            Err(_) => m,
        },
        LedgerOp::Borrow(assets, shares, now) => match borrow_spec(m, p, assets, shares, now) {
            Ok(r) => r.0,
            Err(_) => m,
        },
        LedgerOp::Repay(assets, shares, now) => match repay_spec(m, p, assets, shares, now) {
            Ok(r) => r.0,
            Err(_) => m,
        },
        LedgerOp::SupplyCollateral(_) => m,
        LedgerOp::WithdrawCollateral(assets, now) => match withdraw_collateral_spec(
            m,
            p,
            assets,
            now,
        ) {
            Ok(r) => r.0,
            Err(_) => m,
        },
    }
}

/// The market after a whole sequence of operations, each step against the
/// position of whichever participant acts at that step.
pub open spec fn market_after_all(m: Market, steps: Seq<(UserPosition, LedgerOp)>) -> Market
    decreases steps.len(),
{
    if steps.len() == 0 {
        m
    } else {
        market_after_all(market_after(m, steps[0].0, steps[0].1), steps.skip(1))
    }
}

/// No single operation, against any position, breaks the liquidity
/// invariant: an operation that would is rejected and changes nothing.
pub proof fn lemma_op_preserves_liquidity(m: Market, p: UserPosition, op: LedgerOp)
    requires
        m.liquidity_ok(),
    ensures
        market_after(m, p, op).liquidity_ok(),
{
    match op {
        LedgerOp::Supply(_, _, now) => {
            if accrue_spec(m, now) is Ok {
                assert(accrue_spec(m, now)->Ok_0.liquidity_ok());
            }
        },
        LedgerOp::Withdraw(_, _, _) => {},
        LedgerOp::Borrow(_, _, _) => {},
        LedgerOp::Repay(_, _, now) => {
            if accrue_spec(m, now) is Ok {
                assert(accrue_spec(m, now)->Ok_0.liquidity_ok());
            }
        },
        LedgerOp::SupplyCollateral(_) => {},
        LedgerOp::WithdrawCollateral(_, now) => {
            if accrue_spec(m, now) is Ok {
                assert(accrue_spec(m, now)->Ok_0.liquidity_ok());
            }
        },
    }
}

/// Liquidity invariant: starting from any market that satisfies it — a
/// fresh market in particular — every sequence of operations, against any
/// positions, ends in a market that still satisfies it.
pub proof fn lemma_liquidity_invariant(m: Market, steps: Seq<(UserPosition, LedgerOp)>)
    requires
        m.liquidity_ok(),
    ensures
        market_after_all(m, steps).liquidity_ok(),
    decreases steps.len(),
{
    if steps.len() > 0 {
        lemma_op_preserves_liquidity(m, steps[0].0, steps[0].1);
        lemma_liquidity_invariant(market_after(m, steps[0].0, steps[0].1), steps.skip(1));
    }
}

/// The same invariant after every step of the sequence, not only at its
/// end: every prefix of the sequence leaves a market that satisfies it.
pub proof fn lemma_liquidity_invariant_at_every_step(
    m: Market,
    steps: Seq<(UserPosition, LedgerOp)>,
    i: int,
)
    requires
        m.liquidity_ok(),
        0 <= i <= steps.len(),
    ensures
        market_after_all(m, steps.take(i)).liquidity_ok(),
{
    lemma_liquidity_invariant(m, steps.take(i));
}

} // verus!
