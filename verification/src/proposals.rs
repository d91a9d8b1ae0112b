//! Proposal creation, vote tallying, and execution gating.
//!
//! A proposal is open for voting strictly before `voting_ends_at`, closed
//! from that timestamp on, and settled forever by its one successful
//! execution.

use vstd::prelude::*;
use crate::errors::ErrorCode;
use crate::events::{ProposalExecuted, ProposalRejected, TradeProposalCreated, VoteCast};
use crate::records::{Fund, Member, TradeAction, TradeProposal, Vote};

verus! {

/// The stance a voter has counted on a proposal so far, if any.
pub open spec fn prior_vote(vote_account: Option<Vote>) -> Option<bool> {
    match vote_account {
        Some(v) => Some(v.vote),
        None => None,
    }
}

/// The tallies after one cast: a first vote counts a new voter; a changed
/// vote first takes the stored stance out of its bucket, leaving the voter
/// count untouched; the new stance then lands in its bucket.
pub open spec fn tallies_after_vote(
    votes_for: int,
    votes_against: int,
    total_votes: int,
    prior: Option<bool>,
    vote: bool,
) -> (int, int, int) {
    let reversed_for = if prior == Some(true) { votes_for - 1 } else { votes_for };
    let reversed_against = if prior == Some(false) { votes_against - 1 } else { votes_against };
    let total = if prior is None { total_votes + 1 } else { total_votes };
    if vote {
        (reversed_for + 1, reversed_against, total)
    } else {
        (reversed_for, reversed_against + 1, total)
    }
}

/// The decision rule: strict majority in favour, with a quorum floor of
/// three counted voters. Ties and under-quorum proposals fail, however
/// unanimous.
pub open spec fn proposal_passes(votes_for: u32, votes_against: u32, total_votes: u32) -> bool {
    votes_for > votes_against && total_votes >= 3
}

/// Opens a trade proposal on an active fund for a current member (one with
/// a positive contribution). Takes the next value of the fund's proposal
/// counter as the proposal's identity — the counter moves exactly once per
/// successful call and is never reused — and closes voting `voting_duration`
/// seconds from now. No bound is put on the duration; the caller owns it.
///
/// The counter and timestamp bounds required here are machine limits.
pub fn create_trade_proposal(
    fund_key: u64,
    proposal_key: u64,
    fund: &mut Fund,
    member: &Member,
    proposer: u64,
    action: TradeAction,
    amount: String,
    token: String,
    reasoning: String,
    voting_duration: i64,
    now: i64,
) -> (r: Result<(TradeProposal, TradeProposalCreated), ErrorCode>)
    requires
        amount@.len() <= 50,
        token@.len() <= 20,
        reasoning@.len() <= 500,
        old(fund).proposal_count < u64::MAX,
        i64::MIN <= now + voting_duration <= i64::MAX,
    ensures
        match r {
            Ok(out) => {
                &&& old(fund).is_active
                &&& member.contribution > 0
                &&& *final(fund) == (Fund {
                    proposal_count: (old(fund).proposal_count + 1) as u64,
                    ..*old(fund)
                })
                &&& out.0 == (TradeProposal {
                    fund: fund_key,
                    proposer,
                    telegram_user_id: member.telegram_user_id,
                    proposal_id: (old(fund).proposal_count + 1) as u64,
                    action,
                    amount,
                    token,
                    reasoning,
                    votes_for: 0,
                    votes_against: 0,
                    total_votes: 0,
                    created_at: now,
                    voting_ends_at: (now + voting_duration) as i64,
                    executed: false,
                    passed: false,
                })
                &&& out.0.tally_invariant()
                &&& out.1 == (TradeProposalCreated {
                    fund: fund_key,
                    proposal: proposal_key,
                    proposer,
                    proposal_id: (old(fund).proposal_count + 1) as u64,
                    action,
                    amount,
                    token,
                })
            },
            Err(e) => {
                &&& *final(fund) == *old(fund)
                &&& if !old(fund).is_active {
                    e == ErrorCode::FundInactive
                } else {
                    e == ErrorCode::NotAMember && member.contribution == 0
                }
            },
        },
{
    if !fund.is_active {
        return Err(ErrorCode::FundInactive);
    }
    if member.contribution == 0 {
        return Err(ErrorCode::NotAMember);
    }
    fund.proposal_count = fund.proposal_count + 1;
    let event = TradeProposalCreated {
        fund: fund_key,
        proposal: proposal_key,
        proposer,
        proposal_id: fund.proposal_count,
        action,
        amount: amount.clone(),
        token: token.clone(),
    };
    let proposal = TradeProposal {
        fund: fund_key,
        proposer,
        telegram_user_id: member.telegram_user_id,
        proposal_id: fund.proposal_count,
        action,
        amount,
        token,
        reasoning,
        votes_for: 0,
        votes_against: 0,
        total_votes: 0,
        created_at: now,
        voting_ends_at: now + voting_duration,
        executed: false,
        passed: false,
    };
    Ok((proposal, event))
}

/// Casts or changes a vote, strictly before the deadline, for a current
/// member of the proposal's fund. A first vote from this voter counts a
/// new voter; a later one only moves the voter's stance between buckets,
/// so `total_votes` never counts anyone twice. Either way the tally
/// identity `votes_for + votes_against == total_votes` is preserved.
///
/// The first two preconditions are the record well-formedness that the
/// substrate maintains across operations: the tally identity, and room for
/// one more voter. The third says the stored stance of this voter is
/// counted in its bucket — the vote record is written by no operation but
/// this one.
pub fn vote_on_proposal(
    proposal_key: u64,
    proposal: &mut TradeProposal,
    vote_account: &mut Option<Vote>,
    member: &Member,
    voter: u64,
    vote: bool,
    now: i64,
) -> (r: Result<VoteCast, ErrorCode>)
    requires
        old(proposal).tally_invariant(),
        (*old(vote_account)) is None ==> old(proposal).total_votes < u32::MAX,
        (*old(vote_account)) matches Some(v0) ==> (
            if v0.vote { old(proposal).votes_for >= 1 } else { old(proposal).votes_against >= 1 }
        ),
    ensures
        match r {
            Ok(ev) => {
                &&& member.contribution > 0
                &&& now < old(proposal).voting_ends_at
                &&& !old(proposal).executed
                &&& ({
                    let tallies = tallies_after_vote(
                        old(proposal).votes_for as int,
                        old(proposal).votes_against as int,
                        old(proposal).total_votes as int,
                        prior_vote(*old(vote_account)),
                        vote,
                    );
                    &&& final(proposal).votes_for == tallies.0
                    &&& final(proposal).votes_against == tallies.1
                    &&& final(proposal).total_votes == tallies.2
                })
                &&& final(proposal).tally_invariant()
                &&& *final(proposal) == (TradeProposal {
                    votes_for: final(proposal).votes_for,
                    votes_against: final(proposal).votes_against,
                    total_votes: final(proposal).total_votes,
                    ..*old(proposal)
                })
                &&& (match *old(vote_account) {
                    None => *final(vote_account) == Some(Vote {
                        proposal: proposal_key,
                        voter,
                        telegram_user_id: member.telegram_user_id,
                        vote,
                        voted_at: now,
                    }),
                    Some(v0) => *final(vote_account) == Some(Vote {
                        vote,
                        voted_at: now,
                        ..v0
                    }),
                })
                &&& ev == (VoteCast {
                    proposal: proposal_key,
                    voter,
                    vote,
                    votes_for: final(proposal).votes_for,
                    votes_against: final(proposal).votes_against,
                })
            },
            Err(e) => {
                &&& *final(proposal) == *old(proposal)
                &&& *final(vote_account) == *old(vote_account)
                &&& if member.contribution == 0 {
                    e == ErrorCode::NotAMember
                } else if now >= old(proposal).voting_ends_at {
                    e == ErrorCode::VotingEnded
                } else {
                    e == ErrorCode::ProposalAlreadyExecuted && old(proposal).executed
                }
            },
        },
{
    if member.contribution == 0 {
        return Err(ErrorCode::NotAMember);
    }
    if now >= proposal.voting_ends_at {
        return Err(ErrorCode::VotingEnded);
    }
    if proposal.executed {
        return Err(ErrorCode::ProposalAlreadyExecuted);
    }
    match *vote_account {
        None => {
            proposal.total_votes = proposal.total_votes + 1;
            *vote_account = Some(Vote {
                proposal: proposal_key,
                voter,
                telegram_user_id: member.telegram_user_id,
                vote,
                voted_at: now,
            });
        }
        Some(v0) => {
            if v0.vote {
                proposal.votes_for = proposal.votes_for - 1;
            } else {
                proposal.votes_against = proposal.votes_against - 1;
            }
            *vote_account = Some(Vote { vote, voted_at: now, ..v0 });
        }
    }
    if vote {
        proposal.votes_for = proposal.votes_for + 1;
    } else {
        proposal.votes_against = proposal.votes_against + 1;
    }
    Ok(VoteCast {
        proposal: proposal_key,
        voter,
        vote,
        votes_for: proposal.votes_for,
        votes_against: proposal.votes_against,
    })
}

/// What a settled proposal reports to the event stream: the decision to
/// trade, for the external venue to act on, or the rejection. Neither
/// moves any value.
#[derive(Debug)]
pub enum ExecutionOutcome {
    Executed(ProposalExecuted),
    Rejected(ProposalRejected),
}

/// Settles a proposal once its voting window has closed (the deadline
/// itself included): records pass or fail by the decision rule
/// `proposal_passes` and marks the proposal executed. A settled proposal
/// is terminal: a second call fails with `ProposalAlreadyExecuted` and
/// never re-evaluates the outcome.
pub fn execute_proposal(
    fund_key: u64,
    proposal_key: u64,
    proposal: &mut TradeProposal,
    now: i64,
) -> (r: Result<ExecutionOutcome, ErrorCode>)
    ensures
        match r {
            Ok(outcome) => {
                &&& !old(proposal).executed
                &&& now >= old(proposal).voting_ends_at
                &&& *final(proposal) == (TradeProposal {
                    executed: true,
                    passed: proposal_passes(
                        old(proposal).votes_for,
                        old(proposal).votes_against,
                        old(proposal).total_votes,
                    ),
                    ..*old(proposal)
                })
                &&& (match outcome {
                    ExecutionOutcome::Executed(ev) => {
                        &&& final(proposal).passed
                        &&& ev.fund == fund_key
                        &&& ev.proposal == proposal_key
                        &&& ev.action == old(proposal).action
                        &&& ev.amount == old(proposal).amount
                        &&& ev.token == old(proposal).token
                        &&& ev.votes_for == old(proposal).votes_for
                        &&& ev.votes_against == old(proposal).votes_against
                    },
                    ExecutionOutcome::Rejected(ev) => {
                        &&& !final(proposal).passed
                        &&& ev.fund == fund_key
                        &&& ev.proposal == proposal_key
                        &&& ev.votes_for == old(proposal).votes_for
                        &&& ev.votes_against == old(proposal).votes_against
                    },
                })
            },
            Err(e) => {
                &&& *final(proposal) == *old(proposal)
                &&& if old(proposal).executed {
                    e == ErrorCode::ProposalAlreadyExecuted
                } else {
                    e == ErrorCode::VotingStillActive && now < old(proposal).voting_ends_at
                }
            },
        },
{
    if proposal.executed {
        return Err(ErrorCode::ProposalAlreadyExecuted);
    }
    if now < proposal.voting_ends_at {
        return Err(ErrorCode::VotingStillActive);
    }
    let passed: bool = proposal.votes_for > proposal.votes_against && proposal.total_votes >= 3;
    proposal.passed = passed;
    proposal.executed = true;
    if passed {
        Ok(ExecutionOutcome::Executed(ProposalExecuted {
            fund: fund_key,
            proposal: proposal_key,
            action: proposal.action,
            amount: proposal.amount.clone(),
            token: proposal.token.clone(),
            votes_for: proposal.votes_for,
            votes_against: proposal.votes_against,
        }))
    } else {
        Ok(ExecutionOutcome::Rejected(ProposalRejected {
            fund: fund_key,
            proposal: proposal_key,
            votes_for: proposal.votes_for,
            votes_against: proposal.votes_against,
        }))
    }
}

} // verus!
