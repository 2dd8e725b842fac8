//! The two persistent records the ledger operates on.
//!
//! Only the numeric accounting fields live here. The identifiers a host
//! attaches to a market (asset ids, vault references, authorities) are opaque
//! to the core and stay with the host.

use vstd::prelude::*;

use crate::constants::LLTV_PRECISION;

verus! {

/// Per-market ledger record: one per loan-asset/collateral-asset pair.
#[derive(Clone, Copy, Debug, PartialEq, Eq, Structural)]
pub struct Market {
    /// Pooled loan-asset deposits.
    pub total_supply_assets: u64,
    /// Shares issued against the supply pool.
    pub total_supply_shares: u64,
    /// Pooled outstanding debt, in loan-asset units.
    pub total_borrow_assets: u64,
    /// Shares issued against the debt pool.
    pub total_borrow_shares: u64,
    /// Liquidation loan-to-value ratio, in [`LLTV_PRECISION`] fixed point.
    pub lltv: u64,
    /// Timestamp of the most recent interest accrual.
    pub last_update: i64,
}

impl Market {
    /// Well-formedness: the ratio a market was created with is positive and
    /// at most 100%. Market creation establishes this and no operation
    /// touches `lltv` afterwards.
    pub open spec fn wf(self) -> bool {
        0 < self.lltv <= LLTV_PRECISION
    }

    /// Liquidity invariant: outstanding debt never exceeds pooled deposits.
    pub open spec fn liquidity_ok(self) -> bool {
        self.total_borrow_assets <= self.total_supply_assets
    }
}

/// Per-user position record: one per (market, participant) pair.
#[derive(Clone, Copy, Debug, PartialEq, Eq, Structural)]
pub struct UserPosition {
    /// The participant's claim on the supply pool.
    pub supply_shares: u64,
    /// The participant's share of the pool debt.
    pub borrow_shares: u64,
    /// Raw collateral-asset units held for the participant.
    pub collateral_amount: u64,
}

} // verus!
