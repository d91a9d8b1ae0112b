//! The laws the governance state machine keeps, stated over its models.
//!
//! A fund's membership is modelled as the sequence of its members'
//! recorded contributions; a proposal's tally as the integer triple
//! `(votes_for, votes_against, total_votes)`. The proof functions here
//! state, against the operations' own contracts, what holds of every
//! reachable state: deposits conserve the fund's aggregate, withdrawals
//! drift it by exactly what they take out, and vote changes move a single
//! voter between buckets and back without trace.

use vstd::prelude::*;
use crate::proposals::tallies_after_vote;

verus! {

/// The sum of a fund's members' recorded contributions.
pub open spec fn sum_contributions(contributions: Seq<int>) -> int
    decreases contributions.len(),
{
    if contributions.len() == 0 {
        0
    } else {
        sum_contributions(contributions.drop_last()) + contributions.last()
    }
}

/// Appending one contribution raises the sum by exactly that much.
pub proof fn lemma_sum_push(contributions: Seq<int>, value: int)
    ensures
        sum_contributions(contributions.push(value)) == sum_contributions(contributions) + value,
{
    assert(contributions.push(value).drop_last() =~= contributions);
}

/// Rewriting one contribution moves the sum by exactly the difference.
pub proof fn lemma_sum_update(contributions: Seq<int>, i: int, value: int)
    requires
        0 <= i < contributions.len(),
    ensures
        sum_contributions(contributions.update(i, value))
            == sum_contributions(contributions) - contributions[i] + value,
    decreases contributions.len(),
{
    let updated = contributions.update(i, value);
    if i == contributions.len() - 1 {
        assert(updated.drop_last() =~= contributions.drop_last());
    } else {
        assert(updated.drop_last() =~= contributions.drop_last().update(i, value));
        lemma_sum_update(contributions.drop_last(), i, value);
    }
}

/// Conservation across a first deposit: where the fund's `total_deposits`
/// equals the sum of its members' contributions, a join that adds a new
/// member with net contribution `net` and raises `total_deposits` by `net`
/// — exactly what `join_fund` ensures — leaves the two equal again.
pub proof fn lemma_first_join_preserves_conservation(
    contributions: Seq<int>,
    total_deposits: int,
    net: int,
)
    requires
        total_deposits == sum_contributions(contributions),
    ensures
        total_deposits + net == sum_contributions(contributions.push(net)),
{
    lemma_sum_push(contributions, net);
}

/// Conservation across a repeat deposit: where the fund's `total_deposits`
/// equals the sum of its members' contributions, a join that raises one
/// member's contribution and `total_deposits` by the same net amount —
/// exactly what `join_fund` ensures — leaves the two equal again.
pub proof fn lemma_join_preserves_conservation(
    contributions: Seq<int>,
    i: int,
    total_deposits: int,
    net: int,
)
    requires
        total_deposits == sum_contributions(contributions),
        0 <= i < contributions.len(),
    ensures
        total_deposits + net
            == sum_contributions(contributions.update(i, contributions[i] + net)),
{
    lemma_sum_update(contributions, i, contributions[i] + net);
}

/// The documented aggregate drift: `withdraw_funds` lowers one member's
/// contribution by the amount withdrawn but leaves `total_deposits` where
/// it was, so after any positive withdrawal the aggregate overstates the
/// membership sum by exactly that amount, and conservation no longer
/// holds.
pub proof fn lemma_withdraw_drifts_conservation(
    contributions: Seq<int>,
    i: int,
    total_deposits: int,
    amount: int,
)
    requires
        total_deposits == sum_contributions(contributions),
        0 <= i < contributions.len(),
        0 < amount,
    ensures
        sum_contributions(contributions.update(i, contributions[i] - amount))
            == total_deposits - amount,
        sum_contributions(contributions.update(i, contributions[i] - amount))
            != total_deposits,
{
    lemma_sum_update(contributions, i, contributions[i] - amount);
}

/// The tally identity is an invariant of voting: whenever the two buckets
/// partition the counted voters, they still do after any cast —
/// first vote or change — whatever stance it counts.
pub proof fn lemma_vote_preserves_tally_identity(
    votes_for: int,
    votes_against: int,
    total_votes: int,
    prior: Option<bool>,
    vote: bool,
)
    requires
        votes_for + votes_against == total_votes,
    ensures
        ({
            let tallies = tallies_after_vote(votes_for, votes_against, total_votes, prior, vote);
            tallies.0 + tallies.1 == tallies.2
        }),
{
    match prior {
        Some(_) => {
            assert(prior == Some(true) || prior == Some(false));
        }
        None => {}
    }
}

/// Changing a counted vote and changing it back restores the exact
/// tallies: the two casts cancel in both buckets and count no new voter.
pub proof fn lemma_vote_change_round_trip(
    votes_for: int,
    votes_against: int,
    total_votes: int,
    original: bool,
)
    ensures
        ({
            let changed = tallies_after_vote(
                votes_for,
                votes_against,
                total_votes,
                Some(original),
                !original,
            );
            let restored = tallies_after_vote(
                changed.0,
                changed.1,
                changed.2,
                Some(!original),
                original,
            );
            restored == (votes_for, votes_against, total_votes)
        }),
{
}

} // verus!
