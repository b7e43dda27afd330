//! Error kinds reported by the presale engine.

use vstd::prelude::*;

verus! {

/// Every way an operation of the engine can be refused.
#[derive(Clone, Copy, Debug, PartialEq, Eq, Structural)]
pub enum ErrorCode {
    /// The soft cap is greater than the hard cap.
    InvalidCap,
    /// The start time is not before the end time.
    InvalidTime,
    /// The minimum contribution is greater than the maximum contribution.
    InvalidMinMax,
    /// The sale window has not opened yet.
    PresaleNotStarted,
    /// The sale window has closed.
    PresaleEnded,
    /// The contribution would take the funds raised past the hard cap.
    FundingCapExceeded,
    /// The vault does not hold enough tokens for the contribution.
    InsufficientTokens,
    /// The presale has been finalized.
    PresaleAlreadyFinalized,
    /// The caller lacks the role or whitelist membership the operation needs.
    Unauthorized,
    /// The platform fee is not a valid basis-points rate.
    InvalidFee,
    /// The presale does not use a whitelist.
    WhitelistNotEnabled,
    /// The contribution is below the minimum purchase limit.
    AmountTooLow,
    /// The contribution is above the maximum purchase limit.
    AmountTooHigh,
    /// The buyer does not hold enough funds.
    InsufficientFunds,
    /// The sale window has not closed yet.
    PresaleNotEnded,
}

} // verus!
