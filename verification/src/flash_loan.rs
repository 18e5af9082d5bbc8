//! The two instructions of a flash loan and the checks that they share.
//!
//! A flash borrow looks forward: among the instructions after it there must be
//! exactly one flash repay of this program, for the same reserve and amount,
//! that names the borrow's index, and no other flash borrow. A flash repay
//! looks back: the instruction that it names must be a flash borrow of this
//! program for the same reserve and amount. Each looks for itself, since the
//! list of instructions is all that the two can both rely on.

use crate::error::LendingError;
use crate::instruction::{spec_unpack, ProtocolInstruction};
use crate::introspection::{
    spec_load, InstructionView, Introspection, IntrospectionView, TRANSACTION_LEVEL_STACK_HEIGHT,
};
use crate::pubkey::Pubkey;
use crate::reserve::{spec_borrow, spec_repay, Reserve, ReserveLiquidity};
use vstd::prelude::*;

verus! {

/// Place of the reserve among the accounts of a flash borrow.
pub const BEGIN_FLASH_LOAN_RESERVE_ACCOUNT: usize = 2;

/// Place of the reserve among the accounts of a flash repay.
pub const END_FLASH_LOAN_RESERVE_ACCOUNT: usize = 4;

/// What one call of a flash loan instruction is about. It lives as long as the
/// call.
#[derive(Clone, Copy, Debug)]
pub struct FlashLoanContext {
    /// The index of the instruction that is running.
    pub current_instruction_index: u8,
    /// The identifier of this program.
    pub program_identifier: Pubkey,
    /// The identifier of the reserve that lends.
    pub reserve_identifier: Pubkey,
}

/// Whether the account at `position` of `instruction` is `reserve`. An
/// instruction with fewer accounts names no reserve there.
pub open spec fn names_reserve(
    instruction: InstructionView,
    position: int,
    reserve: Pubkey,
) -> bool {
    0 <= position < instruction.accounts.len() && instruction.accounts[position] == reserve
}

/// Whether the code that runs was invoked from inside an instruction, and is
/// not the instruction at `current_index` itself: that instruction is for
/// another program, or the call stack is higher than the transaction's level.
pub open spec fn spec_is_cpi_call(
    program_id: Pubkey,
    current_index: int,
    sysvar: IntrospectionView,
) -> Result<bool, LendingError> {
    match spec_load(sysvar.instructions, current_index) {
        Err(e) => Err(e),
        Ok(current) => Ok(
            current.program_id != program_id || sysvar.stack_height
                > TRANSACTION_LEVEL_STACK_HEIGHT,
        ),
    }
}

/// The first fault of a flash repay that follows the borrow of
/// `liquidity_amount` described by `context`, if it has one.
pub open spec fn spec_check_repay(
    context: FlashLoanContext,
    liquidity_amount: u64,
    instruction: InstructionView,
    amount: u64,
    begin_instruction_index: u8,
) -> Result<(), LendingError> {
    if !names_reserve(
        instruction,
        END_FLASH_LOAN_RESERVE_ACCOUNT as int,
        context.reserve_identifier,
    ) {
        Err(LendingError::InvalidRepayReserve)
    } else if amount != liquidity_amount {
        Err(LendingError::InvalidRepayAmount)
    } else if begin_instruction_index != context.current_instruction_index {
        Err(LendingError::InvalidRepayBorrowIndex)
    } else {
        Ok(())
    }
}

/// The outcome of the scan from `index` to the end of `instructions`, when
/// the instructions before `index` held the repay at `found`, or none.
///
/// Instructions of other programs are passed over. Of this program's, one
/// that does not decode stops the scan with its error; a flash borrow, or a
/// flash repay after the first, is one loan too many; the first flash repay
/// must pass `spec_check_repay`. The scan goes on to the end even when it has
/// its repay, and gives the index of that repay.
pub open spec fn spec_scan_from(
    context: FlashLoanContext,
    liquidity_amount: u64,
    instructions: Seq<InstructionView>,
    index: int,
    found: Option<int>,
) -> Result<int, LendingError>
    decreases instructions.len() - index,
{
    if index < 0 || index >= instructions.len() {
        match found {
            Some(repay_index) => Ok(repay_index),
            None => Err(LendingError::NoMatchingRepayFound),
        }
    } else if instructions[index].program_id != context.program_identifier {
        spec_scan_from(context, liquidity_amount, instructions, index + 1, found)
    } else {
        match spec_unpack(instructions[index].data) {
            Err(e) => Err(e),
            Ok(ProtocolInstruction::BeginFlashLoan { .. }) => Err(LendingError::MultipleFlashLoans),
            Ok(ProtocolInstruction::EndFlashLoan { amount, begin_instruction_index }) => {
                if found is Some {
                    Err(LendingError::MultipleFlashLoans)
                } else {
                    match spec_check_repay(
                        context,
                        liquidity_amount,
                        instructions[index],
                        amount,
                        begin_instruction_index,
                    ) {
                        Err(e) => Err(e),
                        Ok(()) => spec_scan_from(
                            context,
                            liquidity_amount,
                            instructions,
                            index + 1,
                            Some(index),
                        ),
                    }
                }
            },
            Ok(ProtocolInstruction::Other) => spec_scan_from(
                context,
                liquidity_amount,
                instructions,
                index + 1,
                found,
            ),
        }
    }
}

/// The index of the one flash repay that answers the borrow of
/// `liquidity_amount` described by `context`, or why the instructions after
/// the borrow do not make a loan.
pub open spec fn spec_find_flash_repay(
    context: FlashLoanContext,
    liquidity_amount: u64,
    instructions: Seq<InstructionView>,
) -> Result<int, LendingError> {
    spec_scan_from(
        context,
        liquidity_amount,
        instructions,
        context.current_instruction_index + 1,
        None,
    )
}

/// Whether the instruction that a flash repay of `liquidity_amount` names, at
/// `begin_instruction_index`, is the borrow that it answers, or why not.
pub open spec fn spec_validate_flash_borrow(
    context: FlashLoanContext,
    liquidity_amount: u64,
    begin_instruction_index: u8,
    instructions: Seq<InstructionView>,
) -> Result<(), LendingError> {
    if begin_instruction_index > context.current_instruction_index {
        Err(LendingError::OutOfBoundsIndex)
    } else {
        match spec_load(instructions, begin_instruction_index as int) {
            Err(e) => Err(e),
            Ok(instruction) => {
                if instruction.program_id != context.program_identifier {
                    Err(LendingError::NotAFlashBorrow)
                } else {
                    match spec_unpack(instruction.data) {
                        Err(e) => Err(e),
                        Ok(ProtocolInstruction::BeginFlashLoan { amount }) => {
                            if !names_reserve(
                                instruction,
                                BEGIN_FLASH_LOAN_RESERVE_ACCOUNT as int,
                                context.reserve_identifier,
                            ) {
                                Err(LendingError::InvalidRepayReserve)
                            } else if amount != liquidity_amount {
                                Err(LendingError::InvalidRepayAmount)
                            } else {
                                Ok(())
                            }
                        },
                        Ok(_) => Err(LendingError::NotAFlashBorrow),
                    }
                }
            },
        }
    }
}

/// The context of the instruction that is running for `program_id` and lends
/// from, or repays to, the reserve `reserve_key`.
pub open spec fn spec_context(
    program_id: Pubkey,
    reserve_key: Pubkey,
    sysvar: IntrospectionView,
) -> FlashLoanContext {
    FlashLoanContext {
        current_instruction_index: sysvar.current_index,
        program_identifier: program_id,
        reserve_identifier: reserve_key,
    }
}

/// The reserve's ledger after a flash borrow of `liquidity_amount`, or why the
/// borrow is refused: the call must be direct, the repay must follow, and the
/// reserve must hold the amount.
pub open spec fn spec_flash_borrow(
    program_id: Pubkey,
    liquidity_amount: u64,
    reserve: Reserve,
    sysvar: IntrospectionView,
) -> Result<ReserveLiquidity, LendingError> {
    match spec_is_cpi_call(program_id, sysvar.current_index as int, sysvar) {
        Err(e) => Err(e),
        Ok(true) => Err(LendingError::IndirectInvocation),
        Ok(false) => match spec_find_flash_repay(
            spec_context(program_id, reserve.key, sysvar),
            liquidity_amount,
            sysvar.instructions,
        ) {
            Err(e) => Err(e),
            Ok(_) => spec_borrow(reserve.liquidity, liquidity_amount),
        },
    }
}

/// The reserve's ledger after a flash repay of `liquidity_amount`, or why the
/// repay is refused: the call must be direct, the borrow that it names must
/// match, and the ledger must take the amount.
pub open spec fn spec_flash_repay(
    program_id: Pubkey,
    liquidity_amount: u64,
    borrow_instruction_index: u8,
    reserve: Reserve,
    sysvar: IntrospectionView,
) -> Result<ReserveLiquidity, LendingError> {
    match spec_is_cpi_call(program_id, sysvar.current_index as int, sysvar) {
        Err(e) => Err(e),
        Ok(true) => Err(LendingError::IndirectInvocation),
        Ok(false) => match spec_validate_flash_borrow(
            spec_context(program_id, reserve.key, sysvar),
            liquidity_amount,
            borrow_instruction_index,
            sysvar.instructions,
        ) {
            Err(e) => Err(e),
            Ok(()) => spec_repay(reserve.liquidity, liquidity_amount, liquidity_amount),
        },
    }
}

/// Tells whether the code that runs for `program_id` was reached through a
/// nested invocation, given the index that the host reports as current.
pub fn is_cpi_call(
    program_id: &Pubkey,
    current_index: usize,
    sysvar_info: &Introspection,
) -> (indirect: Result<bool, LendingError>)
    ensures
        indirect == spec_is_cpi_call(*program_id, current_index as int, sysvar_info@),
{
    let current_ixn = match sysvar_info.load_instruction_at(current_index) {
        Ok(ixn) => ixn,
        Err(e) => {
            return Err(e);
        },
    };
    // Only the transaction's own instructions are listed. If the one at the
    // current index is for another program, this program was invoked by it.
    if *program_id != current_ixn.program_id {
        return Ok(true);
    }
    if sysvar_info.current_call_stack_depth() > TRANSACTION_LEVEL_STACK_HEIGHT {
        return Ok(true);
    }
    Ok(false)
}

/// The index of a repay that the scan has met, as a mathematical value.
pub open spec fn spec_found(found: Option<usize>) -> Option<int> {
    match found {
        Some(index) => Some(index as int),
        None => None,
    }
}

/// Looks, among the instructions after the running flash borrow of
/// `liquidity_amount`, for the flash repay that answers it, and gives its
/// index. The whole rest of the transaction is read: a second borrow or a
/// second repay fails the loan wherever it stands.
pub fn find_flash_repay(
    context: &FlashLoanContext,
    liquidity_amount: u64,
    sysvar_info: &Introspection,
) -> (found: Result<usize, LendingError>)
    ensures
        match found {
            Ok(repay_index) => spec_find_flash_repay(
                *context,
                liquidity_amount,
                sysvar_info@.instructions,
            ) == Ok::<int, LendingError>(repay_index as int),
            Err(e) => spec_find_flash_repay(*context, liquidity_amount, sysvar_info@.instructions)
                == Err::<int, LendingError>(e),
        },
{
    let mut i: usize = context.current_instruction_index as usize + 1;
    let mut found_repay_ix: Option<usize> = None;
    loop
        invariant
            spec_scan_from(
                *context,
                liquidity_amount,
                sysvar_info@.instructions,
                i as int,
                spec_found(found_repay_ix),
            ) == spec_find_flash_repay(*context, liquidity_amount, sysvar_info@.instructions),
        ensures
            i >= sysvar_info@.instructions.len(),
        decreases sysvar_info@.instructions.len() - i,
    {
        let ixn = match sysvar_info.load_instruction_at(i) {
            Ok(ixn) => ixn,
            Err(LendingError::OutOfBoundsIndex) => {
                break ;
            },
            Err(e) => {
                return Err(e);
            },
        };
        if ixn.program_id == context.program_identifier {
            match ProtocolInstruction::unpack(ixn.data.as_slice()) {
                Err(e) => {
                    return Err(e);
                },
                Ok(ProtocolInstruction::EndFlashLoan { amount, begin_instruction_index }) => {
                    if found_repay_ix.is_some() {
                        return Err(LendingError::MultipleFlashLoans);
                    }
                    if !reserve_is_at(
                        ixn.accounts.as_slice(),
                        END_FLASH_LOAN_RESERVE_ACCOUNT,
                        &context.reserve_identifier,
                    ) {
                        return Err(LendingError::InvalidRepayReserve);
                    }
                    if amount != liquidity_amount {
                        return Err(LendingError::InvalidRepayAmount);
                    }
                    if begin_instruction_index != context.current_instruction_index {
                        return Err(LendingError::InvalidRepayBorrowIndex);
                    }
                    found_repay_ix = Some(i);
                },
                Ok(ProtocolInstruction::BeginFlashLoan { .. }) => {
                    return Err(LendingError::MultipleFlashLoans);
                },
                Ok(ProtocolInstruction::Other) => {},
            }
        }
        proof {
            sysvar_info.lemma_indices_fit();
        }
        i += 1;
    }
    match found_repay_ix {
        Some(repay_index) => Ok(repay_index),
        None => Err(LendingError::NoMatchingRepayFound),
    }
}

/// Whether the account at `position` of `accounts` is `reserve`.
fn reserve_is_at(accounts: &[Pubkey], position: usize, reserve: &Pubkey) -> (named: bool)
    ensures
        named == (position < accounts@.len() && accounts@[position as int] == *reserve),
{
    position < accounts.len() && accounts[position] == *reserve
}

/// Checks that the instruction which the running flash repay of
/// `liquidity_amount` names, at `begin_instruction_index`, is a flash borrow
/// of this program for the same reserve and amount. An index after the
/// running instruction is refused before anything is loaded.
pub fn validate_flash_borrow(
    context: &FlashLoanContext,
    liquidity_amount: u64,
    begin_instruction_index: u8,
    sysvar_info: &Introspection,
) -> (valid: Result<(), LendingError>)
    ensures
        valid == spec_validate_flash_borrow(
            *context,
            liquidity_amount,
            begin_instruction_index,
            sysvar_info@.instructions,
        ),
        begin_instruction_index > context.current_instruction_index ==> valid == Err::<
            (),
            LendingError,
        >(LendingError::OutOfBoundsIndex),
{
    if begin_instruction_index > context.current_instruction_index {
        return Err(LendingError::OutOfBoundsIndex);
    }
    let ixn = match sysvar_info.load_instruction_at(begin_instruction_index as usize) {
        Ok(ixn) => ixn,
        Err(e) => {
            return Err(e);
        },
    };
    if ixn.program_id != context.program_identifier {
        return Err(LendingError::NotAFlashBorrow);
    }
    match ProtocolInstruction::unpack(ixn.data.as_slice()) {
        Err(e) => Err(e),
        Ok(ProtocolInstruction::BeginFlashLoan { amount }) => {
            // The borrow checked its repay when it ran; the repay trusts
            // nothing but the list and checks again.
            if !reserve_is_at(
                ixn.accounts.as_slice(),
                BEGIN_FLASH_LOAN_RESERVE_ACCOUNT,
                &context.reserve_identifier,
            ) {
                return Err(LendingError::InvalidRepayReserve);
            }
            if liquidity_amount != amount {
                return Err(LendingError::InvalidRepayAmount);
            }
            Ok(())
        },
        Ok(_) => Err(LendingError::NotAFlashBorrow),
    }
}

/// Runs a flash borrow of `liquidity_amount` from `reserve_info`: refuses a
/// nested invocation, requires the matching flash repay later in the
/// transaction, then enters the loan in the reserve's ledger. On an error the
/// reserve is as it was. Handing out the liquidity is left to the caller.
pub fn _flash_borrow_reserve_liquidity(
    program_id: &Pubkey,
    liquidity_amount: u64,
    reserve_info: &mut Reserve,
    sysvar_info: &Introspection,
) -> (done: Result<(), LendingError>)
    ensures
        final(reserve_info).key == old(reserve_info).key,
        match done {
            Ok(()) => spec_flash_borrow(
                *program_id,
                liquidity_amount,
                *old(reserve_info),
                sysvar_info@,
            ) == Ok::<ReserveLiquidity, LendingError>(final(reserve_info).liquidity),
            Err(e) => spec_flash_borrow(
                *program_id,
                liquidity_amount,
                *old(reserve_info),
                sysvar_info@,
            ) == Err::<ReserveLiquidity, LendingError>(e) && *final(reserve_info) == *old(
                reserve_info,
            ),
        },
        spec_is_cpi_call(*program_id, sysvar_info@.current_index as int, sysvar_info@) == Ok::<
            bool,
            LendingError,
        >(true) ==> done == Err::<(), LendingError>(LendingError::IndirectInvocation),
{
    let current_index = sysvar_info.current_instruction_index();
    match is_cpi_call(program_id, current_index as usize, sysvar_info) {
        Err(e) => {
            return Err(e);
        },
        Ok(true) => {
            return Err(LendingError::IndirectInvocation);
        },
        Ok(false) => {},
    }
    let context = FlashLoanContext {
        current_instruction_index: current_index,
        program_identifier: *program_id,
        reserve_identifier: reserve_info.key,
    };
    match find_flash_repay(&context, liquidity_amount, sysvar_info) {
        Err(e) => {
            return Err(e);
        },
        Ok(_) => {},
    }
    reserve_info.liquidity.borrow(liquidity_amount)
}

/// Runs a flash repay of `liquidity_amount` to `reserve_info`: refuses a
/// nested invocation, requires that the instruction at
/// `borrow_instruction_index` is the matching flash borrow, then takes the
/// loan out of the reserve's ledger. On an error the reserve is as it was.
/// Collecting the liquidity and the fees is left to the caller.
pub fn _flash_repay_reserve_liquidity(
    program_id: &Pubkey,
    liquidity_amount: u64,
    borrow_instruction_index: u8,
    reserve_info: &mut Reserve,
    sysvar_info: &Introspection,
) -> (done: Result<(), LendingError>)
    ensures
        final(reserve_info).key == old(reserve_info).key,
        match done {
            Ok(()) => spec_flash_repay(
                *program_id,
                liquidity_amount,
                borrow_instruction_index,
                *old(reserve_info),
                sysvar_info@,
            ) == Ok::<ReserveLiquidity, LendingError>(final(reserve_info).liquidity),
            Err(e) => spec_flash_repay(
                *program_id,
                liquidity_amount,
                borrow_instruction_index,
                *old(reserve_info),
                sysvar_info@,
            ) == Err::<ReserveLiquidity, LendingError>(e) && *final(reserve_info) == *old(
                reserve_info,
            ),
        },
        // A call from a height above the transaction's level is refused as
        // indirect, whatever the instructions hold.
        sysvar_info@.current_index < sysvar_info@.instructions.len() && sysvar_info@.stack_height
            > TRANSACTION_LEVEL_STACK_HEIGHT ==> done == Err::<(), LendingError>(
            LendingError::IndirectInvocation,
        ),
        spec_is_cpi_call(*program_id, sysvar_info@.current_index as int, sysvar_info@) == Ok::<
            bool,
            LendingError,
        >(true) ==> done == Err::<(), LendingError>(LendingError::IndirectInvocation),
        // A direct repay that names a borrow after itself is refused for the
        // order of the two.
        borrow_instruction_index > sysvar_info@.current_index ==> done == if spec_is_cpi_call(
            *program_id,
            sysvar_info@.current_index as int,
            sysvar_info@,
        ) == Ok::<bool, LendingError>(true) {
            Err::<(), LendingError>(LendingError::IndirectInvocation)
        } else {
            Err::<(), LendingError>(LendingError::OutOfBoundsIndex)
        },
{
    let current_index = sysvar_info.current_instruction_index();
    match is_cpi_call(program_id, current_index as usize, sysvar_info) {
        Err(e) => {
            return Err(e);
        },
        Ok(true) => {
            return Err(LendingError::IndirectInvocation);
        },
        Ok(false) => {},
    }
    let context = FlashLoanContext {
        current_instruction_index: current_index,
        program_identifier: *program_id,
        reserve_identifier: reserve_info.key,
    };
    match validate_flash_borrow(&context, liquidity_amount, borrow_instruction_index, sysvar_info) {
        Err(e) => {
            return Err(e);
        },
        Ok(()) => {},
    }
    reserve_info.liquidity.repay(liquidity_amount, liquidity_amount)
}

} // verus!
