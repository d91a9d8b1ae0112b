//! Joining a fund: deposit accounting, the per-deposit platform fee, and
//! membership capacity.

use vstd::prelude::*;
use crate::errors::ErrorCode;
use crate::events::MemberJoined;
use crate::records::{Fund, Member};
use vstd::arithmetic::div_mod::{lemma_div_is_ordered, lemma_div_multiples_vanish};
use vstd::arithmetic::mul::lemma_mul_inequality;

verus! {

/// The platform transaction fee on a deposit: 0.2% of the gross amount,
/// truncating.
pub open spec fn join_fee(amount: u64) -> int {
    amount * 20 / 10000
}

/// The net amount a deposit credits to the fund: the gross amount minus
/// the platform transaction fee.
pub open spec fn join_net(amount: u64) -> int {
    amount - join_fee(amount)
}

/// A member's recorded contribution, zero where no record exists yet. A
/// deposit is a first join exactly when this is zero: the record is
/// created lazily, and a member who withdrew everything joins afresh.
pub open spec fn prior_contribution(member: Option<Member>) -> int {
    match member {
        Some(m) => m.contribution as int,
        None => 0,
    }
}

/// The fee never exceeds the gross amount.
proof fn lemma_join_fee_bounds(amount: u64)
    ensures
        0 <= join_fee(amount) <= amount,
{
    lemma_mul_inequality(0, 20, amount as int);
    lemma_mul_inequality(20, 10000, amount as int);
    lemma_div_is_ordered(0, amount as int * 20, 10000);
    lemma_div_is_ordered(amount as int * 20, amount as int * 10000, 10000);
    lemma_div_multiples_vanish(amount as int, 10000);
}

/// Deposits `amount` into the fund on behalf of `member_authority`.
///
/// Requires an active fund, a deposit at or above the fund's minimum
/// (inclusive), and free capacity counted in distinct members. Charges the
/// 0.2% platform fee to the platform treasury, credits the rest to the
/// fund's vault, accumulates the member's net contribution, counts the
/// member on a first deposit (recorded contribution zero), and raises the
/// fund's deposit total by the net amount. The payer covers the gross
/// amount or the whole operation fails with nothing moved.
///
/// The balance bounds required here are machine limits: the substrate
/// never lets a balance or aggregate approach the native-value cap.
pub fn join_fund(
    fund_key: u64,
    fund: &mut Fund,
    member: &mut Option<Member>,
    member_authority: u64,
    amount: u64,
    telegram_user_id: u64,
    member_authority_balance: &mut u64,
    fund_vault: &mut u64,
    platform_treasury: &mut u64,
    now: i64,
) -> (r: Result<MemberJoined, ErrorCode>)
    requires
        old(fund).total_deposits + amount <= u64::MAX,
        *old(fund_vault) + amount <= u64::MAX,
        *old(platform_treasury) + amount <= u64::MAX,
        prior_contribution(*old(member)) + amount <= u64::MAX,
    ensures
        match r {
            Ok(ev) => {
                &&& old(fund).is_active
                &&& amount >= old(fund).min_contribution
                &&& old(fund).member_count < old(fund).max_members
                &&& *old(member_authority_balance) >= amount
                &&& *final(member_authority_balance) == *old(member_authority_balance) - amount
                &&& *final(platform_treasury) == *old(platform_treasury) + join_fee(amount)
                &&& *final(fund_vault) == *old(fund_vault) + join_net(amount)
                &&& final(fund).total_deposits == old(fund).total_deposits + join_net(amount)
                &&& final(fund).member_count == old(fund).member_count + (
                    if prior_contribution(*old(member)) == 0 { 1int } else { 0int }
                )
                &&& *final(fund) == (Fund {
                    total_deposits: final(fund).total_deposits,
                    member_count: final(fund).member_count,
                    ..*old(fund)
                })
                &&& (*final(member)) matches Some(m) && {
                    &&& m.fund == fund_key
                    &&& m.authority == member_authority
                    &&& m.contribution == prior_contribution(*old(member)) + join_net(amount)
                    &&& m.telegram_user_id == telegram_user_id
                    &&& m.joined_at == now
                }
                &&& ev.fund == fund_key
                &&& ev.member == member_authority
                &&& ev.amount == join_net(amount)
                &&& ev.platform_fee == join_fee(amount)
                &&& ev.telegram_user_id == telegram_user_id
            },
            Err(e) => {
                &&& *final(fund) == *old(fund)
                &&& *final(member) == *old(member)
                &&& *final(member_authority_balance) == *old(member_authority_balance)
                &&& *final(fund_vault) == *old(fund_vault)
                &&& *final(platform_treasury) == *old(platform_treasury)
                &&& if !old(fund).is_active {
                    e == ErrorCode::FundInactive
                } else if amount < old(fund).min_contribution {
                    e == ErrorCode::InsufficientContribution
                } else if old(fund).member_count >= old(fund).max_members {
                    e == ErrorCode::FundFull
                } else {
                    e == ErrorCode::InsufficientFunds
                        && *old(member_authority_balance) < amount
                }
            },
        },
{
    if !fund.is_active {
        return Err(ErrorCode::FundInactive);
    }
    if amount < fund.min_contribution {
        return Err(ErrorCode::InsufficientContribution);
    }
    if fund.member_count >= fund.max_members {
        return Err(ErrorCode::FundFull);
    }
    if *member_authority_balance < amount {
        return Err(ErrorCode::InsufficientFunds);
    }
    proof {
        lemma_join_fee_bounds(amount);
    }
    let wide: u128 = (amount as u128) * 20 / 10000;
    let transaction_fee: u64 = wide as u64;
    let net_amount: u64 = amount - transaction_fee;

    // One atomic unit: the payer was checked to cover the gross amount, so
    // neither credit can be reached with the debit left undone.
    *member_authority_balance = *member_authority_balance - amount;
    *platform_treasury = *platform_treasury + transaction_fee;
    *fund_vault = *fund_vault + net_amount;

    match *member {
        None => {
            fund.member_count = fund.member_count + 1;
            *member = Some(Member {
                fund: fund_key,
                authority: member_authority,
                contribution: net_amount,
                telegram_user_id,
                joined_at: now,
            });
        }
        Some(m0) => {
            if m0.contribution == 0 {
                fund.member_count = fund.member_count + 1;
            }
            *member = Some(Member {
                fund: fund_key,
                authority: member_authority,
                contribution: m0.contribution + net_amount,
                telegram_user_id,
                joined_at: now,
            });
        }
    }
    fund.total_deposits = fund.total_deposits + net_amount;

    Ok(MemberJoined {
        fund: fund_key,
        member: member_authority,
        amount: net_amount,
        platform_fee: transaction_fee,
        telegram_user_id,
    })
}

} // verus!
