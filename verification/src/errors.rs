//! Error taxonomy of the ledger core.
//!
//! Every error is fatal to the in-flight operation: the operation returns it
//! without having changed either record.

use vstd::prelude::*;

verus! {

/// The distinct failure outcomes an operation can report.
#[derive(Clone, Copy, Debug, PartialEq, Eq, Structural)]
pub enum PelagoError {
    /// The position would be left undercollateralized.
    InsufficientCollateral,
    /// The market cannot fund the requested borrow or withdrawal.
    InsufficientLiquidity,
    /// A checked addition, multiplication or narrowing conversion overflowed.
    MathOverflow,
    /// A denominator was zero where a positive value is required.
    DivisionByZero,
    /// The loan-to-value ratio is zero or above 100%.
    InvalidLltv,
    /// An amount was zero where a positive amount is required.
    ZeroAmount,
    /// Neither or both of the dual (assets, shares) parameters were non-zero.
    InconsistentInput,
    /// The caller holds fewer supply shares than the burn requires.
    InsufficientSupply,
    /// The caller holds fewer borrow shares than the burn requires.
    InsufficientBorrow,
    /// The clock reading went backwards or out of range.
    InvalidTimestamp,
}

} // verus!
