//! The reasons for which a flash loan instruction is refused.

use vstd::prelude::*;

verus! {

/// Why an instruction was refused. Every refusal is final: the transaction
/// that holds the instruction fails as a whole.
#[derive(Clone, Copy, Debug, PartialEq, Eq, Structural)]
pub enum LendingError {
    /// The data of an instruction of this program is too short for its tag.
    InstructionUnpackError,
    /// An index is past the end of the transaction's instructions, or a repay
    /// names a borrow that comes after it.
    OutOfBoundsIndex,
    /// The instruction was reached through a nested invocation.
    IndirectInvocation,
    /// The transaction holds a second flash borrow, or a second flash repay.
    MultipleFlashLoans,
    /// No flash repay follows the flash borrow.
    NoMatchingRepayFound,
    /// Borrow and repay do not name the same reserve.
    InvalidRepayReserve,
    /// Borrow and repay do not name the same amount.
    InvalidRepayAmount,
    /// The repay does not name the index of the borrow.
    InvalidRepayBorrowIndex,
    /// The instruction that a repay names is not a flash borrow of this program.
    NotAFlashBorrow,
    /// The reserve holds less liquidity than is asked for.
    InsufficientLiquidity,
    /// An amount of the reserve's ledger left its range.
    MathOverflow,
}

} // verus!
