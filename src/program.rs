//! The five instructions of the program, as decisions over the accounts they
//! are given. Each returns the token movements to perform, or the error that
//! aborts the batch.
use vstd::prelude::*;
use crate::batch::{borrow_outcome, validate_borrow, Batch};
use crate::dispatch::DispatchTags;
use crate::error::FlashLoanError;
use crate::fees::{referral_fee, referral_fee_of};
use crate::keys::Key;
use crate::pool::{
    associated_token_address_of, check_pool_authority, is_associated_token_account,
    is_pool_authority, PoolAuthority,
};
use crate::vault::{deposit_shares, shares_for_deposit, underlying_for_withdrawal, withdrawal_amount};

verus! {

/// Whether `authority` is set and is `key`.
pub open spec fn authority_is(authority: Option<Key>, key: Key) -> bool {
    authority is Some && authority->0@ == key@
}

fn check_authority(authority: &Option<Key>, key: &Key) -> (r: bool)
    ensures
        r == authority_is(*authority, *key),
{
    match authority {
        Some(k) => k.same_as(key),
        None => false,
    }
}

/// The accounts of `init_pool`, as far as the checks read them.
#[derive(Clone, Copy, Debug)]
pub struct InitPool {
    /// The mint of the token that the pool lends.
    pub mint: Key,
    pub mint_decimals: u8,
    /// The mint of the pool's shares.
    pub pool_share_mint: Key,
    pub pool_share_mint_decimals: u8,
    pub pool_share_mint_supply: u64,
    /// Whether the share mint has a freeze authority.
    pub pool_share_mint_freezable: bool,
    /// The address given for the pool authority.
    pub pool_authority: Key,
    /// The bump that makes `pool_authority` a derived address.
    pub bump: u8,
}

/// A new pool: its record, and the authorities of the share mint to hand to
/// the pool authority.
#[derive(Clone, Copy, Debug)]
pub struct PoolInitialized {
    pub pool: PoolAuthority,
    pub new_mint_authority: Key,
    /// The new freeze authority, where the share mint has one.
    pub new_freeze_authority: Option<Key>,
}

/// Creates a pool for `accounts.mint`. The share mint must have the lent
/// token's decimals and no supply, and the pool authority must be the
/// address derived for the mint. Both authorities of the share mint pass to
/// the pool authority.
pub fn init_pool(accounts: &InitPool, program_id: &Key) -> (r: Result<PoolInitialized, FlashLoanError>)
    ensures
        accounts.pool_share_mint_decimals != accounts.mint_decimals ==> r == Err::<PoolInitialized, FlashLoanError>(
            FlashLoanError::InvalidMintDecimals,
        ),
        accounts.pool_share_mint_decimals == accounts.mint_decimals && accounts.pool_share_mint_supply != 0
            ==> r == Err::<PoolInitialized, FlashLoanError>(FlashLoanError::InvalidMintSupply),
        accounts.pool_share_mint_decimals == accounts.mint_decimals && accounts.pool_share_mint_supply == 0
            && !is_pool_authority(accounts.pool_authority@, accounts.mint@, accounts.bump, program_id@)
            ==> r == Err::<PoolInitialized, FlashLoanError>(FlashLoanError::ConstraintSeeds),
        r is Ok <==> accounts.pool_share_mint_decimals == accounts.mint_decimals && accounts.pool_share_mint_supply
            == 0 && is_pool_authority(accounts.pool_authority@, accounts.mint@, accounts.bump, program_id@),
        r is Ok ==> ({
            let p = r->Ok_0;
            &&& p.pool.mint == accounts.mint
            &&& p.pool.pool_share_mint == accounts.pool_share_mint
            &&& p.pool.bump == accounts.bump
            &&& p.new_mint_authority == accounts.pool_authority
            &&& p.new_freeze_authority == (if accounts.pool_share_mint_freezable {
                Some(accounts.pool_authority)
            } else {
                None
            })
        }),
{
    if accounts.pool_share_mint_decimals != accounts.mint_decimals {
        return Err(FlashLoanError::InvalidMintDecimals);
    }
    if accounts.pool_share_mint_supply != 0 {
        return Err(FlashLoanError::InvalidMintSupply);
    }
    check_pool_authority(&accounts.pool_authority, &accounts.mint, accounts.bump, program_id)?;
    let pool = PoolAuthority {
        mint: accounts.mint,
        pool_share_mint: accounts.pool_share_mint,
        bump: accounts.bump,
    };
    let new_freeze_authority = if accounts.pool_share_mint_freezable {
        Some(accounts.pool_authority)
    } else {
        None
    };
    Ok(PoolInitialized { pool, new_mint_authority: accounts.pool_authority, new_freeze_authority })
}

/// The accounts of `deposit`, as far as the checks and the share
/// computation read them.
#[derive(Clone, Copy, Debug)]
pub struct Deposit {
    /// The pool's token account that receives the deposit.
    pub token_to: Key,
    pub token_to_owner: Key,
    pub token_to_mint: Key,
    /// What the pool holds before the deposit.
    pub token_to_amount: u64,
    pub pool_share_mint: Key,
    /// The shares outstanding before the deposit.
    pub pool_share_mint_supply: u64,
    pub pool_share_mint_authority: Option<Key>,
    /// The address given for the pool authority, and its record.
    pub pool_authority: Key,
    pub pool: PoolAuthority,
}

/// The outcome of a deposit of `amount`: the shares to mint, or the error.
pub open spec fn deposit_outcome(a: Deposit, amount: u64, program_id: Key) -> Result<u64, FlashLoanError> {
    if a.token_to_owner@ != a.pool_authority@ {
        Err(FlashLoanError::OwnerMismatch)
    } else if a.token_to@ != associated_token_address_of(a.pool_authority@, a.pool.mint@) {
        Err(FlashLoanError::AddressMismatch)
    } else if a.pool_share_mint@ != a.pool.pool_share_mint@ {
        Err(FlashLoanError::AddressMismatch)
    } else if !authority_is(a.pool_share_mint_authority, a.pool_authority) {
        Err(FlashLoanError::AddressMismatch)
    } else if !is_pool_authority(a.pool_authority@, a.token_to_mint@, a.pool.bump, program_id@) {
        Err(FlashLoanError::ConstraintSeeds)
    } else {
        match deposit_shares(amount, a.pool_share_mint_supply, a.token_to_amount) {
            Some(shares) => Ok(shares),
            None => Err(FlashLoanError::ArithmeticError),
        }
    }
}

/// Deposits `amount` into the pool: checks that the receiving account is
/// the pool's own and that the share mint and authority are the pool's, and
/// returns the number of shares to mint to the depositor.
pub fn deposit(accounts: &Deposit, amount: u64, program_id: &Key) -> (r: Result<u64, FlashLoanError>)
    ensures
        r == deposit_outcome(*accounts, amount, *program_id),
{
    if !accounts.token_to_owner.same_as(&accounts.pool_authority) {
        return Err(FlashLoanError::OwnerMismatch);
    }
    if !is_associated_token_account(&accounts.token_to, &accounts.pool_authority, &accounts.pool.mint) {
        return Err(FlashLoanError::AddressMismatch);
    }
    if !accounts.pool_share_mint.same_as(&accounts.pool.pool_share_mint) {
        return Err(FlashLoanError::AddressMismatch);
    }
    if !check_authority(&accounts.pool_share_mint_authority, &accounts.pool_authority) {
        return Err(FlashLoanError::AddressMismatch);
    }
    if check_pool_authority(&accounts.pool_authority, &accounts.token_to_mint, accounts.pool.bump, program_id).is_err() {
        return Err(FlashLoanError::ConstraintSeeds);
    }
    match shares_for_deposit(amount, accounts.pool_share_mint_supply, accounts.token_to_amount) {
        Some(shares) => Ok(shares),
        None => Err(FlashLoanError::ArithmeticError),
    }
}

/// The accounts of `withdraw`, as far as the checks and the payout read
/// them.
#[derive(Clone, Copy, Debug)]
pub struct Withdraw {
    /// The pool's token account that pays out.
    pub token_from_mint: Key,
    pub token_from_amount: u64,
    pub pool_share_mint: Key,
    pub pool_share_mint_supply: u64,
    pub pool_share_mint_authority: Option<Key>,
    pub pool_authority: Key,
    pub pool: PoolAuthority,
}

/// The outcome of redeeming `amount` shares: the units to pay out, or the
/// error.
pub open spec fn withdraw_outcome(a: Withdraw, amount: u64, program_id: Key) -> Result<u64, FlashLoanError> {
    if a.pool_share_mint@ != a.pool.pool_share_mint@ {
        Err(FlashLoanError::AddressMismatch)
    } else if !authority_is(a.pool_share_mint_authority, a.pool_authority) {
        Err(FlashLoanError::AddressMismatch)
    } else if !is_pool_authority(a.pool_authority@, a.token_from_mint@, a.pool.bump, program_id@) {
        Err(FlashLoanError::ConstraintSeeds)
    } else {
        match withdrawal_amount(amount, a.token_from_amount, a.pool_share_mint_supply) {
            Some(paid) => Ok(paid),
            None => Err(FlashLoanError::ArithmeticError),
        }
    }
}

/// Redeems `amount` shares: checks the share mint and the pool authority,
/// and returns the units to pay out once the shares are burnt.
pub fn withdraw(accounts: &Withdraw, amount: u64, program_id: &Key) -> (r: Result<u64, FlashLoanError>)
    ensures
        r == withdraw_outcome(*accounts, amount, *program_id),
{
    if !accounts.pool_share_mint.same_as(&accounts.pool.pool_share_mint) {
        return Err(FlashLoanError::AddressMismatch);
    }
    if !check_authority(&accounts.pool_share_mint_authority, &accounts.pool_authority) {
        return Err(FlashLoanError::AddressMismatch);
    }
    if check_pool_authority(&accounts.pool_authority, &accounts.token_from_mint, accounts.pool.bump, program_id).is_err() {
        return Err(FlashLoanError::ConstraintSeeds);
    }
    match underlying_for_withdrawal(amount, accounts.token_from_amount, accounts.pool_share_mint_supply) {
        Some(paid) => Ok(paid),
        None => Err(FlashLoanError::ArithmeticError),
    }
}

/// The accounts of `borrow`, as far as the checks read them.
#[derive(Clone, Copy, Debug)]
pub struct Borrow {
    /// The pool's token account that lends.
    pub token_from: Key,
    pub token_from_mint: Key,
    pub pool_authority: Key,
    pub pool: PoolAuthority,
}

/// The outcome of a borrow of `amount`: the position of its repayment, or
/// the error.
pub open spec fn borrow_instruction_outcome(
    a: Borrow,
    b: Batch,
    amount: u64,
    program_id: Key,
    tags: DispatchTags,
) -> Result<usize, FlashLoanError> {
    if !is_pool_authority(a.pool_authority@, a.token_from_mint@, a.pool.bump, program_id@) {
        Err(FlashLoanError::ConstraintSeeds)
    } else {
        borrow_outcome(b.instructions@, b.current as int, program_id, tags, a.token_from, a.pool_authority, amount)
    }
}

/// Borrows `amount` from the pool. Funds may be released only where the
/// result is `Ok`: then a repayment of the amount and its fee into the same
/// pool stands at the returned position, later in the batch.
pub fn borrow(accounts: &Borrow, batch: &Batch, amount: u64, program_id: &Key, tags: &DispatchTags) -> (r: Result<usize, FlashLoanError>)
    requires
        batch.wf(),
    ensures
        r == borrow_instruction_outcome(*accounts, *batch, amount, *program_id, *tags),
{
    if check_pool_authority(&accounts.pool_authority, &accounts.token_from_mint, accounts.pool.bump, program_id).is_err() {
        return Err(FlashLoanError::ConstraintSeeds);
    }
    validate_borrow(batch, program_id, tags, &accounts.token_from, &accounts.pool_authority, amount)
}

/// The accounts of `repay`, as far as the checks read them.
#[derive(Clone, Copy, Debug)]
pub struct Repay {
    /// The owner and mint of the pool's token account that receives the
    /// repayment.
    pub token_to_owner: Key,
    pub token_to_mint: Key,
    pub pool_authority: Key,
    pub pool: PoolAuthority,
}

/// How a repayment is split.
#[derive(Clone, Copy, Debug, PartialEq, Eq, Structural)]
pub struct Repayment {
    /// Units moved into the pool.
    pub to_pool: u64,
    /// Units moved to the referrer, where a valid referral account is given.
    pub to_referrer: Option<u64>,
}

/// The outcome of a repayment of `amount`.
pub open spec fn repay_outcome(a: Repay, b: Batch, amount: u64, referral: bool, program_id: Key) -> Result<Repayment, FlashLoanError> {
    if a.token_to_owner@ != a.pool_authority@ {
        Err(FlashLoanError::OwnerMismatch)
    } else if !is_pool_authority(a.pool_authority@, a.token_to_mint@, a.pool.bump, program_id@) {
        Err(FlashLoanError::ConstraintSeeds)
    } else if b.instructions@[b.current as int].program_id@ != program_id@ {
        Err(FlashLoanError::ProgramMismatch)
    } else {
        let fee = referral_fee_of(amount);
        Ok(Repayment {
            to_pool: (amount - fee) as u64,
            to_referrer: if referral { Some(fee as u64) } else { None },
        })
    }
}

/// Repays `amount` into the pool. The referral part of the fee is held back
/// from the pool and goes to the referrer where `referral` says that a valid
/// referral token account was given; otherwise it is not moved at all.
pub fn repay(accounts: &Repay, batch: &Batch, amount: u64, referral: bool, program_id: &Key) -> (r: Result<Repayment, FlashLoanError>)
    requires
        batch.wf(),
    ensures
        r == repay_outcome(*accounts, *batch, amount, referral, *program_id),
{
    if !accounts.token_to_owner.same_as(&accounts.pool_authority) {
        return Err(FlashLoanError::OwnerMismatch);
    }
    if check_pool_authority(&accounts.pool_authority, &accounts.token_to_mint, accounts.pool.bump, program_id).is_err() {
        return Err(FlashLoanError::ConstraintSeeds);
    }
    let current = batch.current_position();
    if !batch.instructions[current].program_id.same_as(program_id) {
        return Err(FlashLoanError::ProgramMismatch);
    }
    let fee = referral_fee(amount);
    let to_referrer = if referral {
        Some(fee)
    } else {
        None
    };
    Ok(Repayment { to_pool: amount - fee, to_referrer })
}

} // verus!
