use flash_loan_mastery::vault::{mul_div, narrow, shares_for_deposit, underlying_for_withdrawal};

#[test]
fn first_deposit_gets_one_share_per_unit() {
    assert_eq!(shares_for_deposit(0, 0, 0), Some(0));
    assert_eq!(shares_for_deposit(1_000, 0, 0), Some(1_000));
    assert_eq!(shares_for_deposit(u64::MAX, 0, 0), Some(u64::MAX));
}

#[test]
fn zero_deposit_mints_no_shares() {
    assert_eq!(shares_for_deposit(0, 5, 7), Some(0));
    assert_eq!(shares_for_deposit(0, u64::MAX, 1), Some(0));
}

#[test]
fn deposit_shares_are_floored() {
    // 10 * 3 / 7 = 4.28...
    assert_eq!(shares_for_deposit(10, 3, 7), Some(4));
    assert_eq!(shares_for_deposit(500, 1_000, 2_000), Some(250));
}

#[test]
fn deposit_into_shares_without_holdings_fails() {
    assert_eq!(shares_for_deposit(10, 5, 0), None);
}

#[test]
fn deposit_shares_that_overflow_fail() {
    assert_eq!(shares_for_deposit(u64::MAX, u64::MAX, 1), None);
    assert_eq!(shares_for_deposit(u64::MAX, u64::MAX, u64::MAX), Some(u64::MAX));
}

#[test]
fn withdrawal_is_floored() {
    assert_eq!(underlying_for_withdrawal(250, 2_000, 1_000), Some(500));
    assert_eq!(underlying_for_withdrawal(1, 10, 3), Some(3));
}

#[test]
fn withdrawal_from_empty_pool_fails() {
    assert_eq!(underlying_for_withdrawal(1, 10, 0), None);
    assert_eq!(underlying_for_withdrawal(0, 0, 0), None);
}

#[test]
fn withdrawal_that_overflows_fails() {
    assert_eq!(underlying_for_withdrawal(u64::MAX, u64::MAX, 1), None);
}

#[test]
fn empty_pool_round_trip_returns_deposit() {
    for d in [1u64, 2, 999, 123_456_789, u64::MAX] {
        let shares = shares_for_deposit(d, 0, 0).unwrap();
        assert_eq!(underlying_for_withdrawal(shares, d, shares), Some(d));
    }
}

#[test]
fn deposit_then_withdraw_never_gains() {
    let cases = [(1_000u64, 3u64, 7u64), (10, 1_000, 2_999), (77, 5, 1_000_000), (123_456, 999, 1_001)];
    for (amount, total_shares, total_underlying) in cases {
        let minted = shares_for_deposit(amount, total_shares, total_underlying).unwrap();
        let paid = underlying_for_withdrawal(minted, total_underlying + amount, total_shares + minted).unwrap();
        assert!(paid <= amount);
    }
}

#[test]
fn wide_arithmetic_helpers() {
    assert_eq!(mul_div(u64::MAX, u64::MAX, u64::MAX), u64::MAX as u128);
    assert_eq!(mul_div(7, 3, 2), 10);
    assert_eq!(narrow(u64::MAX as u128), Some(u64::MAX));
    assert_eq!(narrow(u64::MAX as u128 + 1), None);
}
