//! The fee schedule and the fees it gives.
use vstd::prelude::*;

verus! {

/// Loan fee, in hundredths of a basis point (0.09%).
pub const LOAN_FEE: u128 = 900;

/// Referral fee, in hundredths of a basis point (0.005%).
pub const REFERRAL_FEE: u128 = 50;

/// Basis points in a whole.
pub const LOAN_FEE_DENOMINATOR: u128 = 10000;

pub const ONE_HUNDRED: u128 = 100;

/// `floor(amount * (LOAN_FEE + REFERRAL_FEE) / (LOAN_FEE_DENOMINATOR * ONE_HUNDRED))`.
pub open spec fn loan_fee_of(amount: u64) -> int {
    amount as int * (LOAN_FEE + REFERRAL_FEE) as int / (LOAN_FEE_DENOMINATOR * ONE_HUNDRED) as int
}

/// What a borrower of `amount` must repay: the amount and its fee, or
/// `None` where that sum exceeds 64 bits.
pub open spec fn repayment_of(amount: u64) -> Option<u64> {
    let total = amount as int + loan_fee_of(amount);
    if total <= u64::MAX { Some(total as u64) } else { None }
}

/// The referral part of a repayment of `amount`: the borrowed amount is
/// recovered as `floor(amount * D / (D + LOAN_FEE + REFERRAL_FEE))`, with `D`
/// the full scale, and the referral fee is `REFERRAL_FEE / D` of it.
pub open spec fn referral_fee_of(amount: u64) -> int {
    let d = (LOAN_FEE_DENOMINATOR * ONE_HUNDRED) as int;
    let principal = d * amount as int / (d + LOAN_FEE as int + REFERRAL_FEE as int);
    principal * REFERRAL_FEE as int / d
}

/// The fee on a loan of `amount`.
pub fn loan_fee(amount: u64) -> (r: u64)
    ensures
        r as int == loan_fee_of(amount),
        r <= amount,
{
    proof {
        let a = amount as int;
        assert(a * 950 <= u64::MAX as int * 950) by (nonlinear_arith)
            requires 0 <= a <= u64::MAX as int;
        assert(a * 950 / 1000000 <= a) by (nonlinear_arith)
            requires a >= 0;
    }
    let wide: u128 = (amount as u128) * (LOAN_FEE + REFERRAL_FEE) / (LOAN_FEE_DENOMINATOR * ONE_HUNDRED);
    wide as u64
}

/// The smallest repayment that closes a loan of `amount`; `None` where it
/// overflows 64 bits.
pub fn expected_repayment(amount: u64) -> (r: Option<u64>)
    ensures
        r == repayment_of(amount),
{
    let fee = amount.checked_add(loan_fee(amount));
    fee
}

/// The referral fee carried by a repayment of `amount`.
pub fn referral_fee(amount: u64) -> (r: u64)
    ensures
        r as int == referral_fee_of(amount),
        r <= amount,
{
    let scale: u128 = LOAN_FEE_DENOMINATOR * ONE_HUNDRED;
    proof {
        let a = amount as int;
        assert(1000000 * a <= 1000000 * u64::MAX as int) by (nonlinear_arith)
            requires 0 <= a <= u64::MAX as int;
    }
    let principal: u128 = scale * (amount as u128) / (scale + LOAN_FEE + REFERRAL_FEE);
    proof {
        let a = amount as int;
        assert(1000000 * a / 1000950 <= a) by (nonlinear_arith)
            requires a >= 0;
        assert((1000000 * a / 1000950) * 50 / 1000000 <= a) by (nonlinear_arith)
            requires a >= 0, 1000000 * a / 1000950 <= a, 1000000 * a / 1000950 >= 0;
    }
    let fee: u128 = principal * REFERRAL_FEE / scale;
    fee as u64
}

/// Borrow and repayment agree: a repayment of at least what a loan of
/// `amount` requires still moves at least `amount` into the pool once its
/// referral part is held back.
pub proof fn lemma_repayment_covers_loan(amount: u64, repaid: u64)
    requires
        repayment_of(amount) is Some,
        repaid >= repayment_of(amount)->0,
    ensures
        repaid as int - referral_fee_of(repaid) >= amount as int,
{
    let a = amount as int;
    let r = repaid as int;
    let g = loan_fee_of(amount);
    let o = 1000000 * r / 1000950;
    let f = o * 50 / 1000000;
    assert(f == referral_fee_of(repaid));
    assert(g * 1000000 + 1000000 > 950 * a) by (nonlinear_arith)
        requires g == a * 950 / 1000000, a >= 0;
    assert(o * 1000950 <= 1000000 * r) by (nonlinear_arith)
        requires o == 1000000 * r / 1000950, r >= 0;
    assert(o >= 0) by (nonlinear_arith)
        requires o == 1000000 * r / 1000950, r >= 0;
    assert(f * 1000000 <= o * 50) by (nonlinear_arith)
        requires f == o * 50 / 1000000, o >= 0;
    assert(f * 1000950 <= 50 * r) by (nonlinear_arith)
        requires f * 1000000 <= o * 50, o * 1000950 <= 1000000 * r;
    assert(r - a >= g);
    assert(50 * r < (r - a + 1) * 1000950);
}

} // verus!
