//! The structured records a successful operation emits.
//!
//! Every successful mutating operation returns exactly one of these for the
//! substrate's event stream. They are append-only and fire-and-forget:
//! nothing here ever reads one back.

use vstd::prelude::*;
use crate::records::TradeAction;

verus! {

/// A fund was created and the platform creation fee paid.
#[derive(Debug)]
pub struct FundCreated {
    pub fund: u64,
    pub authority: u64,
    pub name: String,
    pub telegram_group_id: String,
    pub platform_fee: u64,
}

/// A member deposited into a fund; `amount` is the net amount credited to
/// the fund's vault and `platform_fee` the fee actually charged.
#[derive(Clone, Copy, Debug)]
pub struct MemberJoined {
    pub fund: u64,
    pub member: u64,
    pub amount: u64,
    pub platform_fee: u64,
    pub telegram_user_id: u64,
}

/// A member opened a new trade proposal.
#[derive(Debug)]
pub struct TradeProposalCreated {
    pub fund: u64,
    pub proposal: u64,
    pub proposer: u64,
    pub proposal_id: u64,
    pub action: TradeAction,
    pub amount: String,
    pub token: String,
}

/// A vote was cast or changed; the tallies are the post-update values.
#[derive(Clone, Copy, Debug)]
pub struct VoteCast {
    pub proposal: u64,
    pub voter: u64,
    pub vote: bool,
    pub votes_for: u32,
    pub votes_against: u32,
}

/// A proposal was settled and passed; the external trade venue acts on it.
#[derive(Debug)]
pub struct ProposalExecuted {
    pub fund: u64,
    pub proposal: u64,
    pub action: TradeAction,
    pub amount: String,
    pub token: String,
    pub votes_for: u32,
    pub votes_against: u32,
}

/// A proposal was settled and failed.
#[derive(Clone, Copy, Debug)]
pub struct ProposalRejected {
    pub fund: u64,
    pub proposal: u64,
    pub votes_for: u32,
    pub votes_against: u32,
}

/// A member withdrew part of its contribution from the fund's vault.
#[derive(Clone, Copy, Debug)]
pub struct FundsWithdrawn {
    pub fund: u64,
    pub member: u64,
    pub amount: u64,
}

/// The platform skimmed its success fee from a reported profit.
#[derive(Clone, Copy, Debug)]
pub struct SuccessFeeCollected {
    pub fund: u64,
    pub profit_amount: u64,
    pub fee_amount: u64,
}

} // verus!
