//! The persistent records of the governance state machine.
//!
//! Account identities and record addresses are opaque 64-bit handles: the
//! substrate authenticates callers and derives each record's address from
//! its parents, and the operations here only copy those handles into
//! records and emitted events, never compute with them.
//!
//! String fields are bounded by the records' storage layout; the bounds
//! stand as preconditions of the operations that accept them.

use vstd::prelude::*;

verus! {

/// One governed pool of deposited value, with its configuration and
/// aggregate counters. Created once; every later operation that changes
/// membership, deposits or proposals mutates its counters.
#[derive(Debug)]
pub struct Fund {
    /// Identity of the fund's creator.
    pub authority: u64,
    /// Display name, at most 32 characters.
    pub name: String,
    /// Free-form description, at most 200 characters.
    pub description: String,
    /// Free-form strategy note, at most 50 characters.
    pub strategy: String,
    /// Reference to the external discussion group, at most 50 characters.
    pub telegram_group_id: String,
    /// Smallest deposit a join may bring.
    pub min_contribution: u64,
    /// Largest number of distinct members the fund accepts.
    pub max_members: u32,
    /// Management fee in basis points; recorded, not yet applied anywhere.
    pub management_fee: u16,
    /// Performance fee in basis points; recorded, not yet applied anywhere.
    pub performance_fee: u16,
    /// Sum of all net member contributions ever deposited.
    pub total_deposits: u64,
    /// Number of distinct members with a first deposit behind them.
    pub member_count: u32,
    /// Monotonic counter; the id and storage disambiguator of the next proposal.
    pub proposal_count: u64,
    /// Timestamp of creation.
    pub created_at: i64,
    /// Whether the fund accepts deposits and proposals. No operation here
    /// clears it; deactivation belongs to the substrate's administration.
    pub is_active: bool,
}

/// One participant's stake in one fund, created lazily on the first
/// deposit. A member whose `contribution` is zero is not a current member:
/// it may neither propose nor vote, and its next deposit counts as a first
/// join again.
#[derive(Clone, Copy, Debug, PartialEq, Eq, Structural)]
pub struct Member {
    /// Address of the owning fund.
    pub fund: u64,
    /// Identity of the participant.
    pub authority: u64,
    /// Net-of-fee value currently held in the fund for this participant.
    pub contribution: u64,
    /// The participant's external-group user reference.
    pub telegram_user_id: u64,
    /// Timestamp of the most recent deposit.
    pub joined_at: i64,
}

/// The trading action a proposal asks the fund to take. Execution only
/// records the decision; the trade itself happens off-chain.
#[derive(Clone, Copy, Debug, PartialEq, Eq, Structural)]
pub enum TradeAction {
    Buy,
    Sell,
    Swap,
    Hold,
}

/// One time-boxed, votable decision to take a trading action.
///
/// Lifecycle: open for voting while `now < voting_ends_at` and not yet
/// executed; closed once the deadline passes; settled forever after the
/// one successful execution (`executed` is then true and `passed` fixed).
#[derive(Debug)]
pub struct TradeProposal {
    /// Address of the owning fund.
    pub fund: u64,
    /// Identity of the proposing member.
    pub proposer: u64,
    /// The proposer's external-group user reference.
    pub telegram_user_id: u64,
    /// Per-fund monotonically increasing identity.
    pub proposal_id: u64,
    /// The requested trading action.
    pub action: TradeAction,
    /// Free-form amount, at most 50 characters.
    pub amount: String,
    /// Free-form token name, at most 20 characters.
    pub token: String,
    /// Free-form reasoning, at most 500 characters.
    pub reasoning: String,
    /// Count of currently counted votes in favour.
    pub votes_for: u32,
    /// Count of currently counted votes against.
    pub votes_against: u32,
    /// Count of distinct voters that have ever voted.
    pub total_votes: u32,
    /// Timestamp of creation.
    pub created_at: i64,
    /// First timestamp at which voting is over and execution allowed.
    pub voting_ends_at: i64,
    /// Whether the proposal was settled by an execution.
    pub executed: bool,
    /// The recorded outcome; meaningful only once `executed` is true.
    pub passed: bool,
}

impl TradeProposal {
    /// The tally identity: the two buckets partition the counted voters.
    /// It holds of every proposal ever produced by the operations here.
    pub open spec fn tally_invariant(self) -> bool {
        self.votes_for + self.votes_against == self.total_votes
    }
}

/// One participant's current stance on one proposal, created lazily on the
/// first vote and rewritten in place on a vote change.
#[derive(Clone, Copy, Debug, PartialEq, Eq, Structural)]
pub struct Vote {
    /// Address of the owning proposal.
    pub proposal: u64,
    /// Identity of the voter.
    pub voter: u64,
    /// The voter's external-group user reference.
    pub telegram_user_id: u64,
    /// The current stance: true counts in favour.
    pub vote: bool,
    /// Timestamp of the most recent cast.
    pub voted_at: i64,
}

} // verus!
