//! Errors that abort the enclosing batch.
use vstd::prelude::*;

verus! {

/// Every failure is terminal for the whole batch of instructions.
#[derive(Debug, Clone, Copy, PartialEq, Eq, Structural)]
pub enum FlashLoanError {
    AddressMismatch,
    OwnerMismatch,
    PoolMismatch,
    ProgramMismatch,
    InvalidMintSupply,
    InvalidMintDecimals,
    CannotBorrowBeforeRepay,
    NoRepaymentInstructionFound,
    IncorrectRepaymentAmount,
    /// An overflow, underflow or division by zero.
    ArithmeticError,
    /// The pool authority is not the address derived from the pool's seeds.
    ConstraintSeeds,
    /// An instruction of this program that is too short to read, or that
    /// lacks the accounts it must reference.
    InvalidInstructionData,
}

impl FlashLoanError {
    /// The message that accompanies the error.
    pub fn message(&self) -> String {
        match self {
            FlashLoanError::AddressMismatch => String::from_str("Address Mismatch"),
            FlashLoanError::OwnerMismatch => String::from_str("Owner Mismatch"),
            FlashLoanError::PoolMismatch => String::from_str("Pool Mismatch"),
            FlashLoanError::ProgramMismatch => String::from_str("Program Mismatch"),
            FlashLoanError::InvalidMintSupply => String::from_str("Invalid Mint Supply"),
            FlashLoanError::InvalidMintDecimals => String::from_str("Invalid Mint Decimals"),
            FlashLoanError::CannotBorrowBeforeRepay => String::from_str("Cannot Borrow Before Repay"),
            FlashLoanError::NoRepaymentInstructionFound => String::from_str("There is no repayment instruction"),
            FlashLoanError::IncorrectRepaymentAmount => String::from_str("The repayment amount is incorrect"),
            FlashLoanError::ArithmeticError => String::from_str("Arithmetic error"),
            FlashLoanError::ConstraintSeeds => String::from_str("Seeds constraint violated"),
            FlashLoanError::InvalidInstructionData => String::from_str("Invalid instruction data"),
        }
    }
}

} // verus!
