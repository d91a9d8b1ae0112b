//! Pooled-investment fund governance and treasury accounting.
//!
//! Members deposit native value into a shared treasury, propose trades,
//! vote on proposals, and withdraw their share. This crate holds the
//! governance state machine itself: fund, member, proposal and vote
//! records, deposit and fee arithmetic, majority-vote tallying, proposal
//! execution gating, and the balance movements that every operation
//! performs. The surrounding ledger substrate is out of scope: it
//! authenticates callers, derives record addresses, and commits each
//! operation atomically. It hands every operation the current timestamp,
//! the addresses of the records it touches, and the balances it may move,
//! all as plain values.

pub mod errors;
pub mod events;
pub mod laws;
pub mod membership;
pub mod proposals;
pub mod records;
pub mod registry;
pub mod treasury;

pub use errors::ErrorCode;
pub use events::{
    FundCreated, FundsWithdrawn, MemberJoined, ProposalExecuted, ProposalRejected,
    SuccessFeeCollected, TradeProposalCreated, VoteCast,
};
pub use membership::join_fund;
pub use proposals::{create_trade_proposal, execute_proposal, vote_on_proposal, ExecutionOutcome};
pub use records::{Fund, Member, TradeAction, TradeProposal, Vote};
pub use registry::{create_fund, PLATFORM_FEE};
pub use treasury::{collect_success_fee, transfer, withdraw_funds};
