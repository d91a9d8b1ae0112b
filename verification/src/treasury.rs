//! Cross-cutting value movement: the transfer primitive, the success-fee
//! skim, and withdrawals.
//!
//! Balances are plain `u64` amounts of native value in its smallest unit.
//! The substrate owns the actual accounts; it hands each operation mutable
//! views of exactly the balances that operation may move.

use vstd::prelude::*;
use crate::errors::ErrorCode;
use crate::events::{FundsWithdrawn, SuccessFeeCollected};
use crate::records::Member;

verus! {

/// The value-transfer primitive: moves `amount` from one balance to
/// another, or fails with `InsufficientFunds` and moves nothing.
///
/// The destination bound is a machine limit: the substrate never lets the
/// total native value in circulation approach it.
pub fn transfer(from: &mut u64, to: &mut u64, amount: u64) -> (r: Result<(), ErrorCode>)
    requires
        *old(to) + amount <= u64::MAX,
    ensures
        match r {
            Ok(_) => {
                &&& *old(from) >= amount
                &&& *final(from) == *old(from) - amount
                &&& *final(to) == *old(to) + amount
            },
            Err(e) => {
                &&& e == ErrorCode::InsufficientFunds
                &&& *old(from) < amount
                &&& *final(from) == *old(from)
                &&& *final(to) == *old(to)
            },
        },
{
    if *from < amount {
        return Err(ErrorCode::InsufficientFunds);
    }
    *from = *from - amount;
    *to = *to + amount;
    Ok(())
}

/// The flat success fee taken from a reported profit: 1%, truncating.
pub open spec fn success_fee(profit_amount: u64) -> int {
    profit_amount as int / 100
}

/// Skims the platform's success fee from the fund's vault: 1% of the
/// caller-reported profit, truncating. The profit figure is an external
/// trust boundary: nothing here derives or checks it. When the fee rounds
/// to zero the call succeeds, moves nothing and emits nothing; member
/// balances are never touched.
pub fn collect_success_fee(
    fund_key: u64,
    fund_vault: &mut u64,
    platform_treasury: &mut u64,
    profit_amount: u64,
) -> (r: Result<Option<SuccessFeeCollected>, ErrorCode>)
    requires
        *old(platform_treasury) + success_fee(profit_amount) <= u64::MAX,
    ensures
        match r {
            Ok(ev) => {
                &&& *final(fund_vault) == *old(fund_vault) - success_fee(profit_amount)
                &&& *final(platform_treasury) == *old(platform_treasury) + success_fee(profit_amount)
                &&& match ev {
                    Some(e) => {
                        &&& success_fee(profit_amount) > 0
                        &&& e.fund == fund_key
                        &&& e.profit_amount == profit_amount
                        &&& e.fee_amount == success_fee(profit_amount)
                    },
                    None => success_fee(profit_amount) == 0,
                }
            },
            Err(e) => {
                &&& e == ErrorCode::InsufficientFunds
                &&& *old(fund_vault) < success_fee(profit_amount)
                &&& *final(fund_vault) == *old(fund_vault)
                &&& *final(platform_treasury) == *old(platform_treasury)
            },
        },
{
    let fee: u64 = profit_amount / 100;
    if fee == 0 {
        return Ok(None);
    }
    if *fund_vault < fee {
        return Err(ErrorCode::InsufficientFunds);
    }
    *fund_vault = *fund_vault - fee;
    *platform_treasury = *platform_treasury + fee;
    Ok(Some(SuccessFeeCollected { fund: fund_key, profit_amount, fee_amount: fee }))
}

/// Returns part of a member's contribution to its own wallet: debits the
/// fund's vault and the member's recorded contribution by `amount` and
/// credits the member's wallet.
///
/// Known aggregate drift, kept as the governance rules state it: the fund
/// record is not touched, so neither `total_deposits` nor `member_count`
/// is lowered; see `laws::lemma_withdraw_drifts_conservation`.
pub fn withdraw_funds(
    fund_key: u64,
    member: &mut Member,
    fund_vault: &mut u64,
    member_wallet: &mut u64,
    amount: u64,
) -> (r: Result<FundsWithdrawn, ErrorCode>)
    requires
        *old(member_wallet) + amount <= u64::MAX,
    ensures
        match r {
            Ok(ev) => {
                &&& amount <= old(member).contribution
                &&& *old(fund_vault) >= amount
                &&& final(member).contribution == old(member).contribution - amount
                &&& *final(member) == (Member { contribution: final(member).contribution, ..*old(member) })
                &&& *final(fund_vault) == *old(fund_vault) - amount
                &&& *final(member_wallet) == *old(member_wallet) + amount
                &&& ev == (FundsWithdrawn { fund: fund_key, member: old(member).authority, amount })
            },
            Err(e) => {
                &&& *final(member) == *old(member)
                &&& *final(fund_vault) == *old(fund_vault)
                &&& *final(member_wallet) == *old(member_wallet)
                &&& if amount > old(member).contribution {
                    e == ErrorCode::InsufficientBalance
                } else {
                    e == ErrorCode::InsufficientFunds && *old(fund_vault) < amount
                }
            },
        },
{
    if amount > member.contribution {
        return Err(ErrorCode::InsufficientBalance);
    }
    if *fund_vault < amount {
        return Err(ErrorCode::InsufficientFunds);
    }
    *fund_vault = *fund_vault - amount;
    *member_wallet = *member_wallet + amount;
    member.contribution = member.contribution - amount;
    Ok(FundsWithdrawn { fund: fund_key, member: member.authority, amount })
}

} // verus!
