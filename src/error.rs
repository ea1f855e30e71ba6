//! The reasons a flash-loan request fails.
use vstd::prelude::*;

verus! {

/// Why a flash-loan request was aborted. Every one of them is fatal to the request.
#[derive(Clone, Copy, Debug, PartialEq, Eq, Structural)]
pub enum AggregatorError {
    /// No configured reserve has enough fresh liquidity for the amount.
    NoEligibleReserve,
    /// Refreshing the chosen reserve failed.
    RefreshFailed,
    /// No program-derived address was found for the authority's seeds.
    DerivationExhausted,
    /// The lending backend refused the loan.
    BorrowRejected,
    /// The receiver returned less than principal plus fee.
    RepaymentShortfall,
    /// An account does not have the owner the step requires.
    InvalidAccountOwner,
    /// Principal plus fee does not fit in an unsigned 64-bit amount.
    RepaymentOverflow,
}

} // verus!
