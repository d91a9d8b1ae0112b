//! Fund creation.

use vstd::prelude::*;
use crate::errors::ErrorCode;
use crate::events::FundCreated;
use crate::records::Fund;
use crate::treasury::transfer;

verus! {

/// Flat platform fee charged on fund creation: 0.1 unit of native value,
/// in its smallest unit.
pub const PLATFORM_FEE: u64 = 100_000_000;

/// Creates a fund: charges the flat platform creation fee from the
/// creator's balance, then initializes the record with the given
/// configuration, all counters at zero and the activity flag set. Fails
/// with `InsufficientFunds`, touching nothing, when the creator cannot
/// cover the fee. The string bounds are the record's storage layout; the
/// substrate addresses the fund by (creator, name), so no two funds
/// collide.
pub fn create_fund(
    fund_key: u64,
    authority: u64,
    name: String,
    description: String,
    strategy: String,
    telegram_group_id: String,
    min_contribution: u64,
    max_members: u32,
    management_fee: u16,
    performance_fee: u16,
    authority_balance: &mut u64,
    platform_treasury: &mut u64,
    now: i64,
) -> (r: Result<(Fund, FundCreated), ErrorCode>)
    requires
        name@.len() <= 32,
        description@.len() <= 200,
        strategy@.len() <= 50,
        telegram_group_id@.len() <= 50,
        *old(platform_treasury) + PLATFORM_FEE <= u64::MAX,
    ensures
        match r {
            Ok(out) => {
                &&& *old(authority_balance) >= PLATFORM_FEE
                &&& *final(authority_balance) == *old(authority_balance) - PLATFORM_FEE
                &&& *final(platform_treasury) == *old(platform_treasury) + PLATFORM_FEE
                &&& out.0 == (Fund {
                    authority,
                    name,
                    description,
                    strategy,
                    telegram_group_id,
                    min_contribution,
                    max_members,
                    management_fee,
                    performance_fee,
                    total_deposits: 0,
                    member_count: 0,
                    proposal_count: 0,
                    created_at: now,
                    is_active: true,
                })
                &&& out.1 == (FundCreated {
                    fund: fund_key,
                    authority,
                    name,
                    telegram_group_id,
                    platform_fee: PLATFORM_FEE,
                })
            },
            Err(e) => {
                &&& e == ErrorCode::InsufficientFunds
                &&& *old(authority_balance) < PLATFORM_FEE
                &&& *final(authority_balance) == *old(authority_balance)
                &&& *final(platform_treasury) == *old(platform_treasury)
            },
        },
{
    match transfer(authority_balance, platform_treasury, PLATFORM_FEE) {
        Ok(_) => {}
        Err(e) => {
            return Err(e);
        }
    }
    let event = FundCreated {
        fund: fund_key,
        authority,
        name: name.clone(),
        telegram_group_id: telegram_group_id.clone(),
        platform_fee: PLATFORM_FEE,
    };
    let fund = Fund {
        authority,
        name,
        description,
        strategy,
        telegram_group_id,
        min_contribution,
        max_members,
        management_fee,
        performance_fee,
        total_deposits: 0,
        member_count: 0,
        proposal_count: 0,
        created_at: now,
        is_active: true,
    };
    Ok((fund, event))
}

} // verus!
