//! The reasons an escrow operation can refuse to run.

use vstd::prelude::*;

verus! {

/// Every failure an operation reports to its caller. An operation that
/// returns one of these has changed nothing: validation, authorization and
/// arithmetic are settled before any balance or record is touched.
#[derive(Clone, Copy, Debug, PartialEq, Eq, Structural)]
pub enum ErrorCode {
    /// The off-chain content reference exceeds the allowed length.
    DescriptionHashTooLong,
    /// The prize amount must be greater than zero.
    InvalidPrizeAmount,
    /// A checked add, subtract or multiply would overflow.
    MathOverflow,
    /// The bounty already has a winner.
    BountyAlreadyCompleted,
    /// Only the company that created the bounty may select a winner.
    UnauthorizedCompany,
    /// The expiry window has passed (or the bounty is already marked
    /// expired), so a winner can no longer be selected.
    BountyExpired,
    /// The expiry window has not passed yet, so escrow cannot be reclaimed.
    BountyNotExpired,
    /// The bounty is already marked expired and its escrow reclaimed.
    BountyAlreadyExpired,
}

} // verus!
