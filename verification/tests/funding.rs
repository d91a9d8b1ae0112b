//! Fund creation, deposits, fees, capacity, withdrawal and conservation.

use compazz_funds::{
    collect_success_fee, create_fund, join_fund, transfer, withdraw_funds, ErrorCode, Fund,
    Member, PLATFORM_FEE,
};

fn fresh_fund(min_contribution: u64, max_members: u32) -> Fund {
    Fund {
        authority: 1,
        name: "alpha".to_string(),
        description: "a test fund".to_string(),
        strategy: "hold".to_string(),
        telegram_group_id: "group".to_string(),
        min_contribution,
        max_members,
        management_fee: 200,
        performance_fee: 2000,
        total_deposits: 0,
        member_count: 0,
        proposal_count: 0,
        created_at: 0,
        is_active: true,
    }
}

#[test]
fn create_fund_initializes_record_and_charges_fee() {
    let mut creator_balance: u64 = 150_000_000;
    let mut treasury: u64 = 7;
    let r = create_fund(
        11,
        1,
        "alpha".to_string(),
        "a test fund".to_string(),
        "hold".to_string(),
        "group".to_string(),
        500,
        25,
        200,
        2000,
        &mut creator_balance,
        &mut treasury,
        1000,
    );
    let (fund, event) = r.unwrap();
    assert_eq!(creator_balance, 50_000_000);
    assert_eq!(treasury, 100_000_007);
    assert_eq!(fund.authority, 1);
    assert_eq!(fund.name, "alpha");
    assert_eq!(fund.min_contribution, 500);
    assert_eq!(fund.max_members, 25);
    assert_eq!(fund.management_fee, 200);
    assert_eq!(fund.performance_fee, 2000);
    assert_eq!(fund.total_deposits, 0);
    assert_eq!(fund.member_count, 0);
    assert_eq!(fund.proposal_count, 0);
    assert_eq!(fund.created_at, 1000);
    assert!(fund.is_active);
    assert_eq!(event.fund, 11);
    assert_eq!(event.authority, 1);
    assert_eq!(event.name, "alpha");
    assert_eq!(event.telegram_group_id, "group");
    assert_eq!(event.platform_fee, PLATFORM_FEE);
}

#[test]
fn create_fund_fails_when_creator_cannot_cover_fee() {
    let mut creator_balance: u64 = PLATFORM_FEE - 1;
    let mut treasury: u64 = 0;
    let r = create_fund(
        11,
        1,
        "alpha".to_string(),
        "d".to_string(),
        "s".to_string(),
        "g".to_string(),
        0,
        5,
        0,
        0,
        &mut creator_balance,
        &mut treasury,
        0,
    );
    match r {
        Err(e) => assert_eq!(e, ErrorCode::InsufficientFunds),
        Ok(_) => panic!("creation succeeded without covering the fee"),
    }
    assert_eq!(creator_balance, PLATFORM_FEE - 1);
    assert_eq!(treasury, 0);
}

#[test]
fn join_fee_is_twenty_basis_points_truncating() {
    let mut fund = fresh_fund(0, 10);
    let mut member: Option<Member> = None;
    let mut payer: u64 = 20_000;
    let mut vault: u64 = 0;
    let mut treasury: u64 = 0;
    let event = join_fund(
        11, &mut fund, &mut member, 2, 10_000, 77, &mut payer, &mut vault, &mut treasury, 5,
    )
    .unwrap();
    assert_eq!(event.platform_fee, 20);
    assert_eq!(event.amount, 9_980);
    assert_eq!(payer, 10_000);
    assert_eq!(vault, 9_980);
    assert_eq!(treasury, 20);
    assert_eq!(fund.total_deposits, 9_980);
    assert_eq!(member.unwrap().contribution, 9_980);
}

#[test]
fn join_fee_rounds_to_zero_on_small_amounts() {
    let mut fund = fresh_fund(0, 10);
    let mut member: Option<Member> = None;
    let mut payer: u64 = 99;
    let mut vault: u64 = 0;
    let mut treasury: u64 = 0;
    let event = join_fund(
        11, &mut fund, &mut member, 2, 99, 77, &mut payer, &mut vault, &mut treasury, 5,
    )
    .unwrap();
    assert_eq!(event.platform_fee, 0);
    assert_eq!(event.amount, 99);
    assert_eq!(vault, 99);
    assert_eq!(treasury, 0);
    assert_eq!(member.unwrap().contribution, 99);
}

#[test]
fn join_accepts_exactly_the_minimum_contribution() {
    let mut fund = fresh_fund(1_000, 10);
    let mut member: Option<Member> = None;
    let mut payer: u64 = 1_000;
    let mut vault: u64 = 0;
    let mut treasury: u64 = 0;
    let r = join_fund(
        11, &mut fund, &mut member, 2, 1_000, 77, &mut payer, &mut vault, &mut treasury, 5,
    );
    assert!(r.is_ok());
    assert_eq!(member.unwrap().contribution, 998);
}

#[test]
fn join_rejects_below_minimum_contribution() {
    let mut fund = fresh_fund(1_000, 10);
    let mut member: Option<Member> = None;
    let mut payer: u64 = 999;
    let mut vault: u64 = 0;
    let mut treasury: u64 = 0;
    let r = join_fund(
        11, &mut fund, &mut member, 2, 999, 77, &mut payer, &mut vault, &mut treasury, 5,
    );
    match r {
        Err(e) => assert_eq!(e, ErrorCode::InsufficientContribution),
        Ok(_) => panic!("deposit below the minimum was accepted"),
    }
    assert!(member.is_none());
    assert_eq!(fund.member_count, 0);
    assert_eq!(payer, 999);
}

#[test]
fn join_rejects_inactive_fund() {
    let mut fund = fresh_fund(0, 10);
    fund.is_active = false;
    let mut member: Option<Member> = None;
    let mut payer: u64 = 100;
    let mut vault: u64 = 0;
    let mut treasury: u64 = 0;
    let r = join_fund(
        11, &mut fund, &mut member, 2, 100, 77, &mut payer, &mut vault, &mut treasury, 5,
    );
    match r {
        Err(e) => assert_eq!(e, ErrorCode::FundInactive),
        Ok(_) => panic!("deposit into an inactive fund was accepted"),
    }
}

#[test]
fn join_fails_when_payer_cannot_cover_gross_amount() {
    let mut fund = fresh_fund(0, 10);
    let mut member: Option<Member> = None;
    let mut payer: u64 = 9_999;
    let mut vault: u64 = 0;
    let mut treasury: u64 = 0;
    let r = join_fund(
        11, &mut fund, &mut member, 2, 10_000, 77, &mut payer, &mut vault, &mut treasury, 5,
    );
    match r {
        Err(e) => assert_eq!(e, ErrorCode::InsufficientFunds),
        Ok(_) => panic!("deposit succeeded without covering the amount"),
    }
    assert_eq!(payer, 9_999);
    assert_eq!(vault, 0);
    assert_eq!(treasury, 0);
    assert_eq!(fund.total_deposits, 0);
}

#[test]
fn capacity_admits_the_last_seat_and_refuses_the_next() {
    let mut fund = fresh_fund(0, 2);
    let mut vault: u64 = 0;
    let mut treasury: u64 = 0;
    let mut first: Option<Member> = None;
    let mut second: Option<Member> = None;
    let mut third: Option<Member> = None;

    let mut payer: u64 = 300;
    join_fund(11, &mut fund, &mut first, 2, 100, 1, &mut payer, &mut vault, &mut treasury, 5)
        .unwrap();
    assert_eq!(fund.member_count, 1);

    // The second distinct depositor takes the last seat.
    join_fund(11, &mut fund, &mut second, 3, 100, 2, &mut payer, &mut vault, &mut treasury, 6)
        .unwrap();
    assert_eq!(fund.member_count, 2);

    // The third distinct depositor finds the fund full.
    let r = join_fund(11, &mut fund, &mut third, 4, 100, 3, &mut payer, &mut vault, &mut treasury, 7);
    match r {
        Err(e) => assert_eq!(e, ErrorCode::FundFull),
        Ok(_) => panic!("a depositor beyond max_members was accepted"),
    }
    assert_eq!(fund.member_count, 2);

    // The capacity gate is checked on every deposit, before the member
    // lookup: a full fund refuses even a counted member's top-up.
    let r = join_fund(11, &mut fund, &mut second, 3, 100, 2, &mut payer, &mut vault, &mut treasury, 8);
    match r {
        Err(e) => assert_eq!(e, ErrorCode::FundFull),
        Ok(_) => panic!("a deposit into a full fund was accepted"),
    }
    assert_eq!(fund.member_count, 2);
}

#[test]
fn deposits_conserve_fund_total_until_a_withdrawal() {
    let mut fund = fresh_fund(0, 10);
    let mut vault: u64 = 0;
    let mut treasury: u64 = 0;
    let mut first: Option<Member> = None;
    let mut second: Option<Member> = None;
    let mut payer: u64 = 100_000;

    join_fund(11, &mut fund, &mut first, 2, 10_000, 1, &mut payer, &mut vault, &mut treasury, 5)
        .unwrap();
    join_fund(11, &mut fund, &mut second, 3, 5_000, 2, &mut payer, &mut vault, &mut treasury, 6)
        .unwrap();
    join_fund(11, &mut fund, &mut first, 2, 7_500, 1, &mut payer, &mut vault, &mut treasury, 7)
        .unwrap();

    let mut first_member = first.unwrap();
    let sum: u64 = first_member.contribution + second.as_ref().unwrap().contribution;
    assert_eq!(fund.total_deposits, sum);
    assert_eq!(fund.total_deposits, vault);
    assert_eq!(fund.member_count, 2);

    // Withdrawal debits the member and the vault but not the aggregate:
    // the documented drift.
    let mut wallet: u64 = 0;
    withdraw_funds(11, &mut first_member, &mut vault, &mut wallet, 2_000).unwrap();
    let sum_after: u64 = first_member.contribution + second.unwrap().contribution;
    assert_eq!(sum_after, sum - 2_000);
    assert_eq!(fund.total_deposits, sum);
    assert_ne!(fund.total_deposits, sum_after);
}

#[test]
fn withdraw_moves_value_and_debits_contribution() {
    let mut member = Member { fund: 11, authority: 2, contribution: 5_000, telegram_user_id: 1, joined_at: 5 };
    let mut vault: u64 = 8_000;
    let mut wallet: u64 = 25;
    let event = withdraw_funds(11, &mut member, &mut vault, &mut wallet, 3_000).unwrap();
    assert_eq!(member.contribution, 2_000);
    assert_eq!(vault, 5_000);
    assert_eq!(wallet, 3_025);
    assert_eq!(event.fund, 11);
    assert_eq!(event.member, 2);
    assert_eq!(event.amount, 3_000);
}

#[test]
fn withdraw_rejects_more_than_the_contribution() {
    let mut member = Member { fund: 11, authority: 2, contribution: 5_000, telegram_user_id: 1, joined_at: 5 };
    let mut vault: u64 = 8_000;
    let mut wallet: u64 = 0;
    let r = withdraw_funds(11, &mut member, &mut vault, &mut wallet, 5_001);
    match r {
        Err(e) => assert_eq!(e, ErrorCode::InsufficientBalance),
        Ok(_) => panic!("withdrawal beyond the contribution was accepted"),
    }
    assert_eq!(member.contribution, 5_000);
    assert_eq!(vault, 8_000);
    assert_eq!(wallet, 0);
}

#[test]
fn withdraw_fails_on_a_drained_vault() {
    let mut member = Member { fund: 11, authority: 2, contribution: 5_000, telegram_user_id: 1, joined_at: 5 };
    let mut vault: u64 = 2_999;
    let mut wallet: u64 = 0;
    let r = withdraw_funds(11, &mut member, &mut vault, &mut wallet, 3_000);
    match r {
        Err(e) => assert_eq!(e, ErrorCode::InsufficientFunds),
        Ok(_) => panic!("withdrawal succeeded against a drained vault"),
    }
    assert_eq!(member.contribution, 5_000);
}

#[test]
fn success_fee_is_one_percent_truncating() {
    let mut vault: u64 = 10_000;
    let mut treasury: u64 = 3;
    let event = collect_success_fee(11, &mut vault, &mut treasury, 250).unwrap();
    let event = event.unwrap();
    assert_eq!(event.fund, 11);
    assert_eq!(event.profit_amount, 250);
    assert_eq!(event.fee_amount, 2);
    assert_eq!(vault, 9_998);
    assert_eq!(treasury, 5);
}

#[test]
fn success_fee_of_a_tiny_profit_is_a_silent_no_op() {
    let mut vault: u64 = 10_000;
    let mut treasury: u64 = 3;
    let r = collect_success_fee(11, &mut vault, &mut treasury, 99).unwrap();
    assert!(r.is_none());
    assert_eq!(vault, 10_000);
    assert_eq!(treasury, 3);
}

#[test]
fn success_fee_fails_on_a_drained_vault() {
    let mut vault: u64 = 1;
    let mut treasury: u64 = 0;
    let r = collect_success_fee(11, &mut vault, &mut treasury, 250);
    match r {
        Err(e) => assert_eq!(e, ErrorCode::InsufficientFunds),
        Ok(_) => panic!("fee skim succeeded against a drained vault"),
    }
    assert_eq!(vault, 1);
    assert_eq!(treasury, 0);
}

#[test]
fn transfer_moves_value_or_nothing() {
    let mut from: u64 = 100;
    let mut to: u64 = 7;
    assert!(transfer(&mut from, &mut to, 60).is_ok());
    assert_eq!(from, 40);
    assert_eq!(to, 67);

    let r = transfer(&mut from, &mut to, 41);
    match r {
        Err(e) => assert_eq!(e, ErrorCode::InsufficientFunds),
        Ok(_) => panic!("transfer overdrew the source balance"),
    }
    assert_eq!(from, 40);
    assert_eq!(to, 67);
}
