use flash_loan_mastery::fees::{expected_repayment, loan_fee, referral_fee};

#[test]
fn loan_fee_on_one_hundred_thousand() {
    assert_eq!(loan_fee(100_000), 95);
    assert_eq!(expected_repayment(100_000), Some(100_095));
}

#[test]
fn loan_fee_is_floored() {
    assert_eq!(loan_fee(0), 0);
    assert_eq!(loan_fee(1_052), 0);
    assert_eq!(loan_fee(1_053), 1);
    assert_eq!(loan_fee(1_000_000), 950);
}

#[test]
fn expected_repayment_overflow_fails() {
    assert_eq!(expected_repayment(u64::MAX), None);
    assert_eq!(expected_repayment(0), Some(0));
}

#[test]
fn referral_fee_of_a_repayment() {
    // 1_000_000 * 100_095 / 1_000_950 = 100_000; 100_000 * 50 / 1_000_000 = 5
    assert_eq!(referral_fee(100_095), 5);
    assert_eq!(referral_fee(0), 0);
    assert_eq!(referral_fee(19_999), 0);
    assert!(referral_fee(u64::MAX) < u64::MAX);
}

#[test]
fn repayment_returns_at_least_the_loan() {
    for amount in [0u64, 1, 1_052, 1_053, 20_000, 100_000, 1_000_000_007, u64::MAX / 2] {
        let expected = expected_repayment(amount).unwrap();
        assert!(expected - referral_fee(expected) >= amount);
        assert!(expected + 7 - referral_fee(expected + 7) >= amount);
    }
}
