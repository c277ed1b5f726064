//! Conversion between underlying amounts and pool shares.
use vstd::prelude::*;

verus! {

/// Shares minted for a deposit of `deposit_amount` into a pool with
/// `total_shares` shares outstanding and `total_underlying` units held.
/// `None` stands for a fatal arithmetic error (division by zero, or a result
/// that does not fit in 64 bits).
pub open spec fn deposit_shares(deposit_amount: u64, total_shares: u64, total_underlying: u64) -> Option<u64> {
    if total_shares == 0 {
        Some(deposit_amount)
    } else if total_underlying == 0 {
        None
    } else {
        let q = deposit_amount as int * total_shares as int / total_underlying as int;
        if q <= u64::MAX { Some(q as u64) } else { None }
    }
}

/// Underlying units paid out for redeeming `share_amount` shares of a pool
/// holding `total_underlying` units with `total_shares` shares outstanding.
pub open spec fn withdrawal_amount(share_amount: u64, total_underlying: u64, total_shares: u64) -> Option<u64> {
    if total_shares == 0 {
        None
    } else {
        let q = share_amount as int * total_underlying as int / total_shares as int;
        if q <= u64::MAX { Some(q as u64) } else { None }
    }
}

/// Number of shares a deposit is worth: the deposit itself for the first
/// depositor, else `floor(deposit_amount * total_shares / total_underlying)`
/// computed in 128 bits.
pub fn shares_for_deposit(deposit_amount: u64, total_shares: u64, total_underlying: u64) -> (r: Option<u64>)
    ensures
        r == deposit_shares(deposit_amount, total_shares, total_underlying),
{
    if total_shares == 0 {
        return Some(deposit_amount);
    }
    if total_underlying == 0 {
        return None;
    }
    let wide = mul_div(deposit_amount, total_shares, total_underlying);
    narrow(wide)
}

/// Underlying units a redemption of `share_amount` shares is worth:
/// `floor(share_amount * total_underlying / total_shares)` computed in 128 bits.
/// An empty pool (no shares) is an error.
pub fn underlying_for_withdrawal(share_amount: u64, total_underlying: u64, total_shares: u64) -> (r: Option<u64>)
    ensures
        r == withdrawal_amount(share_amount, total_underlying, total_shares),
{
    if total_shares == 0 {
        return None;
    }
    let wide = mul_div(share_amount, total_underlying, total_shares);
    narrow(wide)
}

/// The first depositor into a pool without shares receives exactly as many
/// shares as units deposited.
pub proof fn lemma_first_deposit_baseline(d: u64)
    ensures
        deposit_shares(d, 0, 0) == Some(d),
{
}

/// A deposit of nothing into a pool with shares and holdings mints no shares.
pub proof fn lemma_zero_deposit_mints_nothing(total_shares: u64, total_underlying: u64)
    requires
        total_shares > 0,
        total_underlying > 0,
    ensures
        deposit_shares(0, total_shares, total_underlying) == Some(0u64),
{
    assert(0 * total_shares as int == 0);
}

/// Depositing `d > 0` units into an empty pool and at once redeeming the
/// shares received returns exactly `d`.
pub proof fn lemma_empty_pool_round_trip(d: u64)
    requires
        d > 0,
    ensures
        deposit_shares(d, 0, 0) == Some(d),
        withdrawal_amount(d, d, d) == Some(d),
{
    assert(d as int * d as int / d as int == d as int) by (nonlinear_arith)
        requires d > 0;
}

/// A deposit followed by the redemption of the shares it minted never pays
/// out more than was deposited: no value is created by the round trip.
/// Excluded are pools that hold units but no shares, where the first
/// depositor receives the existing holdings too.
pub proof fn lemma_deposit_withdraw_no_gain(amount: u64, total_shares: u64, total_underlying: u64)
    requires
        total_shares > 0 || total_underlying == 0,
        deposit_shares(amount, total_shares, total_underlying) is Some,
        total_underlying as int + amount as int <= u64::MAX,
        total_shares as int + deposit_shares(amount, total_shares, total_underlying)->0 as int <= u64::MAX,
    ensures
        ({
            let minted = deposit_shares(amount, total_shares, total_underlying)->0;
            let paid = withdrawal_amount(
                minted,
                (total_underlying + amount) as u64,
                (total_shares + minted) as u64,
            );
            paid is Some ==> paid->0 <= amount
        }),
{
    let minted = deposit_shares(amount, total_shares, total_underlying)->0;
    let a = amount as int;
    let s = total_shares as int;
    let t = total_underlying as int;
    let m = minted as int;
    if total_shares == 0 {
        if m > 0 {
            assert(m * (t + a) / (s + m) == a) by (nonlinear_arith)
                requires m == a, s == 0, t == 0, m > 0;
        }
    } else {
        assert(m == a * s / t);
        assert(m * t <= a * s) by (nonlinear_arith)
            requires m == a * s / t, t > 0, a >= 0, s >= 0;
        assert(m * (t + a) / (s + m) <= a) by (nonlinear_arith)
            requires m * t <= a * s, s > 0, m >= 0, a >= 0, t >= 0;
    }
}

/// `floor(a * b / c)` in the double-width domain.
pub fn mul_div(a: u64, b: u64, c: u64) -> (r: u128)
    requires
        c > 0,
    ensures
        r as int == a as int * b as int / c as int,
{
    proof {
        assert(a as int * b as int <= u64::MAX as int * u64::MAX as int) by (nonlinear_arith)
            requires a as int <= u64::MAX as int, b as int <= u64::MAX as int, 0 <= a, 0 <= b;
    }
    let p: u128 = (a as u128) * (b as u128);
    p / (c as u128)
}

/// Narrows a double-width value, failing where it exceeds 64 bits.
pub fn narrow(v: u128) -> (r: Option<u64>)
    ensures
        r == (if v <= u64::MAX { Some(v as u64) } else { None::<u64> }),
{
    if v <= u64::MAX as u128 {
        Some(v as u64)
    } else {
        None
    }
}

} // verus!
