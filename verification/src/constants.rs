//! Fixed-point precision constants shared by the whole ledger.

use vstd::prelude::*;

verus! {

/// Precision of the oracle price representation (1e6). A stored price `p`
/// means `p / PRICE_PRECISION` loan-asset base units per collateral base unit.
pub const PRICE_PRECISION: u64 = 1_000_000;

/// Precision of the liquidation loan-to-value ratio (1e8). An `lltv` of
/// 80_000_000 means 80%.
pub const LLTV_PRECISION: u64 = 100_000_000;

/// Fixed oracle price, pending a real price feed: 100 loan-asset units per
/// collateral unit, divided by 1000 to bridge the three-decimal gap between
/// the two assets' base units (collateral has 9 decimals, the loan asset 6).
pub const FIXED_ORACLE_PRICE: u64 = 100_000;

/// Largest admissible loan-to-value ratio: 100%.
pub const MAX_LLTV: u64 = LLTV_PRECISION;

/// Virtual share offset added to every conversion denominator/numerator so
/// that the first depositor cannot manipulate the share price.
pub const VIRTUAL_SHARES: u128 = 1_000_000;

/// Virtual asset offset paired with [`VIRTUAL_SHARES`].
pub const VIRTUAL_ASSETS: u128 = 1;

/// Flat annual interest rate, 5%, in WAD fixed point (0.05 * 1e18).
pub const FIXED_ANNUAL_RATE_WAD: u128 = 50_000_000_000_000_000;

/// One WAD: the 18-decimal fixed-point unit.
pub const WAD: u128 = 1_000_000_000_000_000_000;

/// Seconds in a year of 365.25 days.
pub const SECONDS_PER_YEAR: u128 = 31_557_600;

} // verus!
