use flash_loan_mastery::batch::{find_repayment, validate_borrow, Batch, BatchInstruction, Obligation};
use flash_loan_mastery::dispatch::DispatchTags;
use flash_loan_mastery::error::FlashLoanError;
use flash_loan_mastery::keys::Key;

fn key(b: u8) -> Key {
    Key::new([b; 32])
}

fn program() -> Key {
    key(1)
}

fn borrow_ix(tags: &DispatchTags, pool_token: u8, pool: u8, amount: u64) -> BatchInstruction {
    let mut data = tags.borrow.to_be_bytes().to_vec();
    data.extend_from_slice(&amount.to_le_bytes());
    BatchInstruction {
        program_id: program(),
        accounts: vec![key(9), key(pool_token), key(8), key(pool), key(20), key(21)],
        data,
    }
}

fn repay_ix(tags: &DispatchTags, pool_token: u8, pool: u8, amount: u64) -> BatchInstruction {
    let mut data = tags.repay.to_be_bytes().to_vec();
    data.extend_from_slice(&amount.to_le_bytes());
    BatchInstruction {
        program_id: program(),
        accounts: vec![key(9), key(8), key(pool_token), key(pool), key(20), key(21)],
        data,
    }
}

fn other_ix() -> BatchInstruction {
    BatchInstruction { program_id: key(30), accounts: vec![], data: vec![1, 2, 3] }
}

fn check(instructions: Vec<BatchInstruction>, current: usize, pool_token: u8, pool: u8, amount: u64) -> Result<usize, FlashLoanError> {
    let tags = DispatchTags::new();
    let batch = Batch { instructions, current };
    validate_borrow(&batch, &program(), &tags, &key(pool_token), &key(pool), amount)
}

#[test]
fn dispatch_tags_differ() {
    let tags = DispatchTags::new();
    assert_ne!(tags.borrow, tags.repay);
    assert_ne!(tags.borrow, 0);
}

#[test]
fn exact_repayment_closes_loan() {
    let tags = DispatchTags::new();
    let b = vec![borrow_ix(&tags, 2, 3, 100_000), repay_ix(&tags, 2, 3, 100_095)];
    assert_eq!(check(b, 0, 2, 3, 100_000), Ok(1));
}

#[test]
fn short_repayment_is_rejected() {
    let tags = DispatchTags::new();
    let b = vec![borrow_ix(&tags, 2, 3, 100_000), repay_ix(&tags, 2, 3, 100_094)];
    assert_eq!(check(b, 0, 2, 3, 100_000), Err(FlashLoanError::IncorrectRepaymentAmount));
}

#[test]
fn larger_repayment_is_accepted() {
    let tags = DispatchTags::new();
    let b = vec![borrow_ix(&tags, 2, 3, 100_000), other_ix(), repay_ix(&tags, 2, 3, 200_000)];
    assert_eq!(check(b, 0, 2, 3, 100_000), Ok(2));
}

#[test]
fn borrow_without_repayment_fails() {
    let tags = DispatchTags::new();
    let b = vec![other_ix(), borrow_ix(&tags, 2, 3, 10), other_ix()];
    assert_eq!(check(b, 1, 2, 3, 10), Err(FlashLoanError::NoRepaymentInstructionFound));
}

#[test]
fn second_borrow_on_same_pool_fails() {
    let tags = DispatchTags::new();
    let b = vec![
        borrow_ix(&tags, 2, 3, 10),
        borrow_ix(&tags, 2, 3, 10),
        repay_ix(&tags, 2, 3, 10),
    ];
    assert_eq!(check(b, 0, 2, 3, 10), Err(FlashLoanError::CannotBorrowBeforeRepay));
}

#[test]
fn interleaved_pools_resolve_independently() {
    let tags = DispatchTags::new();
    let b = vec![
        borrow_ix(&tags, 2, 3, 100_000),
        borrow_ix(&tags, 4, 5, 50_000),
        repay_ix(&tags, 2, 3, 100_095),
        repay_ix(&tags, 4, 5, 50_047),
    ];
    assert_eq!(check(b.clone(), 0, 2, 3, 100_000), Ok(2));
    assert_eq!(check(b, 1, 4, 5, 50_000), Ok(3));
}

#[test]
fn repayment_into_other_pool_does_not_count() {
    let tags = DispatchTags::new();
    let b = vec![borrow_ix(&tags, 2, 3, 100), repay_ix(&tags, 4, 5, 1_000)];
    assert_eq!(check(b, 0, 2, 3, 100), Err(FlashLoanError::NoRepaymentInstructionFound));
}

#[test]
fn repayment_before_borrow_is_not_found() {
    let tags = DispatchTags::new();
    let b = vec![repay_ix(&tags, 2, 3, 100_095), borrow_ix(&tags, 2, 3, 100_000)];
    assert_eq!(check(b, 1, 2, 3, 100_000), Err(FlashLoanError::NoRepaymentInstructionFound));
}

#[test]
fn nested_borrow_is_rejected() {
    let tags = DispatchTags::new();
    let b = vec![other_ix(), repay_ix(&tags, 2, 3, 100_095)];
    assert_eq!(check(b, 0, 2, 3, 100_000), Err(FlashLoanError::ProgramMismatch));
}

#[test]
fn overflowing_borrow_is_rejected() {
    let tags = DispatchTags::new();
    let b = vec![borrow_ix(&tags, 2, 3, u64::MAX), repay_ix(&tags, 2, 3, u64::MAX)];
    assert_eq!(check(b, 0, 2, 3, u64::MAX), Err(FlashLoanError::ArithmeticError));
}

#[test]
fn unreadable_instruction_is_rejected() {
    let tags = DispatchTags::new();
    let short = BatchInstruction { program_id: program(), accounts: vec![], data: vec![1, 2] };
    let b = vec![borrow_ix(&tags, 2, 3, 10), short, repay_ix(&tags, 2, 3, 10)];
    assert_eq!(check(b, 0, 2, 3, 10), Err(FlashLoanError::InvalidInstructionData));
}

#[test]
fn scan_from_position() {
    let tags = DispatchTags::new();
    let ob = Obligation {
        program_id: program(),
        tags,
        pool_token: key(2),
        pool_authority: key(3),
        expected_repayment: 7,
    };
    let b = vec![other_ix(), repay_ix(&tags, 2, 3, 7), repay_ix(&tags, 2, 3, 8)];
    assert_eq!(find_repayment(&b, 0, &ob), Ok(1));
    assert_eq!(find_repayment(&b, 1, &ob), Ok(2));
    assert_eq!(find_repayment(&b, 2, &ob), Err(FlashLoanError::NoRepaymentInstructionFound));
}

#[test]
fn batch_lookup() {
    let batch = Batch { instructions: vec![other_ix()], current: 0 };
    assert_eq!(batch.current_position(), 0);
    assert!(batch.operation_at(0).is_some());
    assert!(batch.operation_at(1).is_none());
}
