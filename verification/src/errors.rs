//! The error taxonomy of the governance operations.

use vstd::prelude::*;

verus! {

/// Why a governance operation was refused.
///
/// Every failure is reported before any record or balance is touched, so a
/// refused operation has no effect at all: the substrate commits each
/// operation as a single atomic unit, and the operations here check every
/// precondition up front.
#[derive(Clone, Copy, Debug, PartialEq, Eq, Structural)]
pub enum ErrorCode {
    /// Operation attempted on a fund whose activity flag is cleared.
    FundInactive,
    /// Deposit below the fund's configured minimum contribution.
    InsufficientContribution,
    /// The fund already holds `max_members` distinct members.
    FundFull,
    /// Caller has no positive recorded contribution in the fund.
    NotAMember,
    /// Vote cast at or after the proposal's voting deadline.
    VotingEnded,
    /// Execution attempted before the proposal's voting deadline.
    VotingStillActive,
    /// The proposal was already settled by an earlier execution.
    ProposalAlreadyExecuted,
    /// Withdrawal larger than the member's recorded contribution.
    InsufficientBalance,
    /// A required value transfer exceeds the paying account's balance.
    InsufficientFunds,
}

} // verus!
