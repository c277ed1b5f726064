//! The enclosing atomic batch, as read by a borrow, and the forward scan
//! that finds the repayment that closes the loan.
use vstd::prelude::*;
use crate::dispatch::{be_u64, le_u64, read_u64_be, read_u64_le, DispatchTags};
use crate::error::FlashLoanError;
use crate::fees::{expected_repayment, repayment_of};
use crate::keys::Key;

verus! {

/// One instruction of a batch: the program it targets, the accounts it
/// references in order, and its data (an eight-byte tag, then parameters).
#[derive(Clone, Debug)]
pub struct BatchInstruction {
    pub program_id: Key,
    pub accounts: Vec<Key>,
    pub data: Vec<u8>,
}

/// A batch of instructions and the position of the one being executed.
#[derive(Clone, Debug)]
pub struct Batch {
    pub instructions: Vec<BatchInstruction>,
    pub current: usize,
}

impl Batch {
    pub open spec fn wf(&self) -> bool {
        self.current < self.instructions@.len()
    }

    /// Position of the instruction being executed.
    pub fn current_position(&self) -> (r: usize)
        ensures
            r == self.current,
    {
        self.current
    }

    /// The instruction at `index`, if the batch has one there.
    pub fn operation_at(&self, index: usize) -> (r: Option<&BatchInstruction>)
        ensures
            index < self.instructions@.len() ==> r == Some(&self.instructions@[index as int]),
            index >= self.instructions@.len() ==> r is None,
    {
        if index < self.instructions.len() {
            Some(&self.instructions[index])
        } else {
            None
        }
    }
}

/// What a borrow looks for later in its batch: an instruction of
/// `program_id` tagged as a repayment into `pool_token` for `pool_authority`
/// of at least `expected_repayment`.
#[derive(Clone, Copy, Debug)]
pub struct Obligation {
    pub program_id: Key,
    pub tags: DispatchTags,
    pub pool_token: Key,
    pub pool_authority: Key,
    pub expected_repayment: u64,
}

/// The tag of an instruction with at least eight bytes of data.
pub open spec fn tag_of(ix: BatchInstruction) -> int {
    be_u64(ix.data@.subrange(0, 8))
}

/// The amount of a repayment instruction with at least sixteen bytes of data.
pub open spec fn amount_of(ix: BatchInstruction) -> int {
    le_u64(ix.data@.subrange(8, 16))
}

/// The pool an instruction with at least four accounts references.
pub open spec fn pool_of(ix: BatchInstruction) -> Seq<u8> {
    ix.accounts@[3]@
}

/// Whether `ix` is a repayment that closes `ob`, whatever its amount.
pub open spec fn repays_pool(ix: BatchInstruction, ob: Obligation) -> bool {
    &&& ix.program_id@ == ob.program_id@
    &&& ix.data@.len() >= 8
    &&& tag_of(ix) == ob.tags.repay
    &&& ix.accounts@.len() >= 4
    &&& ix.accounts@[2]@ == ob.pool_token@
    &&& pool_of(ix) == ob.pool_authority@
}

/// What the scan makes of one later instruction: `None` to go on to the
/// next, `Some(Ok(()))` for the repayment that closes the loan, `Some(Err(e))`
/// to abort.
pub open spec fn step(ix: BatchInstruction, ob: Obligation) -> Option<Result<(), FlashLoanError>> {
    if ix.program_id@ != ob.program_id@ {
        None
    } else if ix.data@.len() < 8 {
        Some(Err(FlashLoanError::InvalidInstructionData))
    } else if tag_of(ix) == ob.tags.repay {
        if ix.accounts@.len() < 4 {
            Some(Err(FlashLoanError::InvalidInstructionData))
        } else if ix.accounts@[2]@ != ob.pool_token@ || pool_of(ix) != ob.pool_authority@ {
            None
        } else if ix.data@.len() < 16 {
            Some(Err(FlashLoanError::InvalidInstructionData))
        } else if amount_of(ix) >= ob.expected_repayment {
            Some(Ok(()))
        } else {
            Some(Err(FlashLoanError::IncorrectRepaymentAmount))
        }
    } else if tag_of(ix) == ob.tags.borrow {
        if ix.accounts@.len() < 4 {
            Some(Err(FlashLoanError::InvalidInstructionData))
        } else if pool_of(ix) == ob.pool_authority@ {
            Some(Err(FlashLoanError::CannotBorrowBeforeRepay))
        } else {
            None
        }
    } else {
        None
    }
}

/// The outcome of scanning `b` from position `j` to its end: the position of
/// the closing repayment, or the error that aborts the borrow.
pub open spec fn scan_from(b: Seq<BatchInstruction>, j: int, ob: Obligation) -> Result<usize, FlashLoanError>
    decreases b.len() - j,
{
    if j < 0 || j >= b.len() {
        Err(FlashLoanError::NoRepaymentInstructionFound)
    } else {
        match step(b[j], ob) {
            None => scan_from(b, j + 1, ob),
            Some(Ok(())) => Ok(j as usize),
            Some(Err(e)) => Err(e),
        }
    }
}

/// Scans the instructions after position `current` for the repayment that
/// closes `ob`.
pub fn find_repayment(instructions: &Vec<BatchInstruction>, current: usize, ob: &Obligation) -> (r: Result<usize, FlashLoanError>)
    requires
        current < instructions@.len(),
    ensures
        r == scan_from(instructions@, current + 1, *ob),
{
    let n = instructions.len();
    let mut j: usize = current + 1;
    while j < n
        invariant
            current < j <= n,
            n == instructions@.len(),
            scan_from(instructions@, current + 1, *ob) == scan_from(instructions@, j as int, *ob),
        decreases n - j,
    {
        let ix = &instructions[j];
        if ix.program_id.same_as(&ob.program_id) {
            if ix.data.len() < 8 {
                return Err(FlashLoanError::InvalidInstructionData);
            }
            let tag = read_u64_be(ix.data.as_slice(), 0);
            if tag == ob.tags.repay {
                if ix.accounts.len() < 4 {
                    return Err(FlashLoanError::InvalidInstructionData);
                }
                if ix.accounts[2].same_as(&ob.pool_token) && ix.accounts[3].same_as(&ob.pool_authority) {
                    if ix.data.len() < 16 {
                        return Err(FlashLoanError::InvalidInstructionData);
                    }
                    let amount = read_u64_le(ix.data.as_slice(), 8);
                    if amount >= ob.expected_repayment {
                        return Ok(j);
                    } else {
                        return Err(FlashLoanError::IncorrectRepaymentAmount);
                    }
                }
            } else if tag == ob.tags.borrow {
                if ix.accounts.len() < 4 {
                    return Err(FlashLoanError::InvalidInstructionData);
                }
                if ix.accounts[3].same_as(&ob.pool_authority) {
                    return Err(FlashLoanError::CannotBorrowBeforeRepay);
                }
            }
        }
        j = j + 1;
    }
    Err(FlashLoanError::NoRepaymentInstructionFound)
}

/// The obligation a borrow of `amount` on `pool_authority` incurs, where the
/// repayment it must find is representable.
pub open spec fn obligation_for(
    program_id: Key,
    tags: DispatchTags,
    pool_token: Key,
    pool_authority: Key,
    expected: u64,
) -> Obligation {
    Obligation { program_id, tags, pool_token, pool_authority, expected_repayment: expected }
}

/// The outcome of validating a borrow of `amount` that stands at position
/// `current` of `b`: the position of its repayment, or the error.
pub open spec fn borrow_outcome(
    b: Seq<BatchInstruction>,
    current: int,
    program_id: Key,
    tags: DispatchTags,
    pool_token: Key,
    pool_authority: Key,
    amount: u64,
) -> Result<usize, FlashLoanError> {
    if b[current].program_id@ != program_id@ {
        Err(FlashLoanError::ProgramMismatch)
    } else {
        match repayment_of(amount) {
            None => Err(FlashLoanError::ArithmeticError),
            Some(expected) => scan_from(
                b,
                current + 1,
                obligation_for(program_id, tags, pool_token, pool_authority, expected),
            ),
        }
    }
}

/// Validates a borrow of `amount` from the pool whose token account is
/// `pool_token` and whose authority is `pool_authority`: the borrow must be
/// a top-level instruction of `program_id`, and a repayment of the amount
/// plus its fee must stand later in the batch. Returns the repayment's
/// position.
pub fn validate_borrow(
    batch: &Batch,
    program_id: &Key,
    tags: &DispatchTags,
    pool_token: &Key,
    pool_authority: &Key,
    amount: u64,
) -> (r: Result<usize, FlashLoanError>)
    requires
        batch.wf(),
    ensures
        r == borrow_outcome(
            batch.instructions@,
            batch.current as int,
            *program_id,
            *tags,
            *pool_token,
            *pool_authority,
            amount,
        ),
{
    let current = batch.current_position();
    if !batch.instructions[current].program_id.same_as(program_id) {
        return Err(FlashLoanError::ProgramMismatch);
    }
    match expected_repayment(amount) {
        None => Err(FlashLoanError::ArithmeticError),
        Some(expected) => {
            let ob = Obligation {
                program_id: *program_id,
                tags: *tags,
                pool_token: *pool_token,
                pool_authority: *pool_authority,
                expected_repayment: expected,
            };
            find_repayment(&batch.instructions, current, &ob)
        },
    }
}

/// A scan succeeds only at a later repayment into the same pool of at least
/// the expected amount.
pub proof fn lemma_scan_sound(b: Seq<BatchInstruction>, j: int, ob: Obligation)
    requires
        b.len() <= usize::MAX,
    ensures
        scan_from(b, j, ob) is Ok ==> ({
            let k = scan_from(b, j, ob)->Ok_0 as int;
            &&& j <= k < b.len()
            &&& repays_pool(b[k], ob)
            &&& b[k].data@.len() >= 16
            &&& amount_of(b[k]) >= ob.expected_repayment
        }),
    decreases b.len() - j,
{
    if 0 <= j < b.len() && step(b[j], ob) is None {
        lemma_scan_sound(b, j + 1, ob);
    }
}

/// Funds are released only against a repayment that stands later in the
/// batch, targets this program with the repayment tag, pays into the same
/// pool, and covers the borrowed amount plus its fee.
pub proof fn lemma_borrow_requires_repayment(
    b: Seq<BatchInstruction>,
    current: int,
    program_id: Key,
    tags: DispatchTags,
    pool_token: Key,
    pool_authority: Key,
    amount: u64,
)
    requires
        0 <= current < b.len(),
        b.len() <= usize::MAX,
    ensures
        borrow_outcome(b, current, program_id, tags, pool_token, pool_authority, amount) is Ok ==> ({
            let k = borrow_outcome(b, current, program_id, tags, pool_token, pool_authority, amount)->Ok_0 as int;
            let expected = repayment_of(amount)->0;
            &&& current < k < b.len()
            &&& repayment_of(amount) is Some
            &&& repays_pool(b[k], obligation_for(program_id, tags, pool_token, pool_authority, expected))
            &&& amount_of(b[k]) >= amount as int + crate::fees::loan_fee_of(amount)
        }),
{
    if b[current].program_id@ == program_id@ && repayment_of(amount) is Some {
        let expected = repayment_of(amount)->0;
        lemma_scan_sound(b, current + 1, obligation_for(program_id, tags, pool_token, pool_authority, expected));
    }
}

/// No instruction of the program from position `from` on is a borrow or a
/// repayment, and each one can be read.
pub open spec fn no_loan_instructions_from(b: Seq<BatchInstruction>, from: int, to: int, program_id: Key, tags: DispatchTags) -> bool {
    forall|k: int|
        from <= k < to && #[trigger] b[k].program_id@ == program_id@ ==> b[k].data@.len() >= 8
            && tag_of(b[k]) != tags.repay && tag_of(b[k]) != tags.borrow
}

proof fn lemma_scan_skips(b: Seq<BatchInstruction>, j: int, to: int, ob: Obligation)
    requires
        0 <= j <= to <= b.len(),
        forall|i: int| j <= i < to ==> step(#[trigger] b[i], ob) is None,
    ensures
        scan_from(b, j, ob) == scan_from(b, to, ob),
    decreases to - j,
{
    if j < to {
        lemma_scan_skips(b, j + 1, to, ob);
    }
}

proof fn lemma_scan_passes_quiet(b: Seq<BatchInstruction>, j: int, to: int, ob: Obligation)
    requires
        0 <= j <= to <= b.len(),
        no_loan_instructions_from(b, j, to, ob.program_id, ob.tags),
    ensures
        scan_from(b, j, ob) == scan_from(b, to, ob),
{
    assert forall|i: int| j <= i < to implies step(#[trigger] b[i], ob) is None by {
        if b[i].program_id@ == ob.program_id@ {
            assert(b[i].data@.len() >= 8 && tag_of(b[i]) != ob.tags.repay && tag_of(b[i]) != ob.tags.borrow);
        }
    }
    lemma_scan_skips(b, j, to, ob);
}

/// A borrow with no repayment (and no other loan instruction of the
/// program) anywhere later in its batch fails with
/// `NoRepaymentInstructionFound`, whatever stands before it.
pub proof fn lemma_no_repayment_later(
    b: Seq<BatchInstruction>,
    current: int,
    program_id: Key,
    tags: DispatchTags,
    pool_token: Key,
    pool_authority: Key,
    amount: u64,
)
    requires
        0 <= current < b.len(),
        b[current].program_id@ == program_id@,
        repayment_of(amount) is Some,
        no_loan_instructions_from(b, current + 1, b.len() as int, program_id, tags),
    ensures
        borrow_outcome(b, current, program_id, tags, pool_token, pool_authority, amount)
            == Err::<usize, FlashLoanError>(FlashLoanError::NoRepaymentInstructionFound),
{
    let ob = obligation_for(program_id, tags, pool_token, pool_authority, repayment_of(amount)->0);
    lemma_scan_passes_quiet(b, current + 1, b.len() as int, ob);
}

/// A second borrow on the same pool that comes before any repayment makes
/// the first borrow fail with `CannotBorrowBeforeRepay`.
pub proof fn lemma_second_borrow_before_repay(
    b: Seq<BatchInstruction>,
    current: int,
    second: int,
    program_id: Key,
    tags: DispatchTags,
    pool_token: Key,
    pool_authority: Key,
    amount: u64,
)
    requires
        0 <= current < second < b.len(),
        b[current].program_id@ == program_id@,
        repayment_of(amount) is Some,
        no_loan_instructions_from(b, current + 1, second, program_id, tags),
        b[second].program_id@ == program_id@,
        b[second].data@.len() >= 8,
        tag_of(b[second]) == tags.borrow,
        tag_of(b[second]) != tags.repay,
        b[second].accounts@.len() >= 4,
        pool_of(b[second]) == pool_authority@,
    ensures
        borrow_outcome(b, current, program_id, tags, pool_token, pool_authority, amount)
            == Err::<usize, FlashLoanError>(FlashLoanError::CannotBorrowBeforeRepay),
{
    let ob = obligation_for(program_id, tags, pool_token, pool_authority, repayment_of(amount)->0);
    lemma_scan_passes_quiet(b, current + 1, second, ob);
}

proof fn lemma_scan_same_suffix(b1: Seq<BatchInstruction>, b2: Seq<BatchInstruction>, j: int, ob: Obligation)
    requires
        0 <= j,
        b1.len() == b2.len(),
        forall|k: int| j <= k < b1.len() ==> b1[k] == b2[k],
    ensures
        scan_from(b1, j, ob) == scan_from(b2, j, ob),
    decreases b1.len() - j,
{
    if j < b1.len() {
        lemma_scan_same_suffix(b1, b2, j + 1, ob);
    }
}

/// The scan only looks forward: two batches that agree from the borrow on
/// give it the same outcome, so an instruction before the borrow (a
/// repayment among them) can never close it.
pub proof fn lemma_scan_forward_only(
    b1: Seq<BatchInstruction>,
    b2: Seq<BatchInstruction>,
    current: int,
    program_id: Key,
    tags: DispatchTags,
    pool_token: Key,
    pool_authority: Key,
    amount: u64,
)
    requires
        0 <= current < b1.len(),
        b1.len() == b2.len(),
        forall|k: int| current <= k < b1.len() ==> b1[k] == b2[k],
    ensures
        borrow_outcome(b1, current, program_id, tags, pool_token, pool_authority, amount)
            == borrow_outcome(b2, current, program_id, tags, pool_token, pool_authority, amount),
{
    if repayment_of(amount) is Some {
        let ob = obligation_for(program_id, tags, pool_token, pool_authority, repayment_of(amount)->0);
        lemma_scan_same_suffix(b1, b2, current + 1, ob);
    }
}

/// Whether `ix`, read as a loan instruction, references a pool other than
/// the one of `ob`.
pub open spec fn for_other_pool(ix: BatchInstruction, ob: Obligation) -> bool {
    &&& ix.data@.len() >= 8
    &&& ix.accounts@.len() >= 4
    &&& pool_of(ix) != ob.pool_authority@
}

/// Loans on different pools resolve independently: a borrow whose batch
/// holds, between it and a sufficient repayment into its own pool, only
/// instructions of other programs and instructions of this program that
/// reference other pools, is closed by that repayment.
pub proof fn lemma_pools_resolve_independently(
    b: Seq<BatchInstruction>,
    current: int,
    k: int,
    program_id: Key,
    tags: DispatchTags,
    pool_token: Key,
    pool_authority: Key,
    amount: u64,
)
    requires
        0 <= current < k < b.len(),
        b.len() <= usize::MAX,
        b[current].program_id@ == program_id@,
        repayment_of(amount) is Some,
        forall|j: int|
            current < j < k && #[trigger] b[j].program_id@ == program_id@ ==> for_other_pool(
                b[j],
                obligation_for(program_id, tags, pool_token, pool_authority, repayment_of(amount)->0),
            ),
        repays_pool(b[k], obligation_for(program_id, tags, pool_token, pool_authority, repayment_of(amount)->0)),
        b[k].data@.len() >= 16,
        amount_of(b[k]) >= repayment_of(amount)->0,
    ensures
        borrow_outcome(b, current, program_id, tags, pool_token, pool_authority, amount)
            == Ok::<usize, FlashLoanError>(k as usize),
{
    let ob = obligation_for(program_id, tags, pool_token, pool_authority, repayment_of(amount)->0);
    assert forall|j: int| current + 1 <= j < k implies step(#[trigger] b[j], ob) is None by {
        if b[j].program_id@ == program_id@ {
            assert(for_other_pool(b[j], ob));
        }
    }
    lemma_scan_skips(b, current + 1, k, ob);
}

} // verus!
