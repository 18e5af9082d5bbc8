//! What the two checks of a flash loan amount to: within a transaction, a
//! flash borrow and a flash repay of this program come as one pair, matched by
//! index, reserve and amount.

use crate::error::LendingError;
use crate::flash_loan::{
    names_reserve, spec_check_repay, spec_context, spec_find_flash_repay, spec_flash_borrow,
    spec_flash_repay, spec_scan_from, spec_validate_flash_borrow, FlashLoanContext,
    BEGIN_FLASH_LOAN_RESERVE_ACCOUNT,
};
use crate::instruction::{spec_unpack, ProtocolInstruction};
use crate::introspection::{InstructionView, IntrospectionView, TRANSACTION_LEVEL_STACK_HEIGHT};
use crate::pubkey::Pubkey;
use crate::reserve::{lemma_borrow_then_repay, spec_borrow, Reserve, ReserveLiquidity};
use vstd::prelude::*;

verus! {

/// Whether `instruction` is nothing to a flash loan: it is for another
/// program, or it is neither a flash borrow nor a flash repay.
pub open spec fn is_inert(context: FlashLoanContext, instruction: InstructionView) -> bool {
    instruction.program_id != context.program_identifier || spec_unpack(instruction.data) == Ok::<
        ProtocolInstruction,
        LendingError,
    >(ProtocolInstruction::Other)
}

/// Whether `instruction` is a flash repay of this program that answers the
/// borrow of `liquidity_amount` described by `context`: same reserve, same
/// amount, and the borrow's index.
pub open spec fn is_matching_repay(
    context: FlashLoanContext,
    liquidity_amount: u64,
    instruction: InstructionView,
) -> bool {
    &&& instruction.program_id == context.program_identifier
    &&& spec_unpack(instruction.data) matches Ok(
        ProtocolInstruction::EndFlashLoan { amount, begin_instruction_index },
    )
    &&& spec_check_repay(context, liquidity_amount, instruction, amount, begin_instruction_index)
        is Ok
}

/// Whether `instruction` is a flash borrow of this program of
/// `liquidity_amount` from the reserve of `context`.
pub open spec fn is_matching_borrow(
    context: FlashLoanContext,
    liquidity_amount: u64,
    instruction: InstructionView,
) -> bool {
    &&& instruction.program_id == context.program_identifier
    &&& spec_unpack(instruction.data) == Ok::<ProtocolInstruction, LendingError>(
        ProtocolInstruction::BeginFlashLoan { amount: liquidity_amount },
    )
    &&& names_reserve(
        instruction,
        BEGIN_FLASH_LOAN_RESERVE_ACCOUNT as int,
        context.reserve_identifier,
    )
}

/// Whether every instruction from `from` on, but the one at `except`, is
/// inert.
pub open spec fn all_inert_but(
    context: FlashLoanContext,
    instructions: Seq<InstructionView>,
    from: int,
    except: int,
) -> bool {
    forall|k: int|
        from <= k < instructions.len() && k != except ==> is_inert(
            context,
            #[trigger] instructions[k],
        )
}

/// Whether the instruction at `repay_index` is the matching repay and the
/// only instruction after the borrow that is not inert.
pub open spec fn single_repay_at(
    context: FlashLoanContext,
    liquidity_amount: u64,
    instructions: Seq<InstructionView>,
    repay_index: int,
) -> bool {
    &&& context.current_instruction_index < repay_index < instructions.len()
    &&& is_matching_repay(context, liquidity_amount, instructions[repay_index])
    &&& all_inert_but(
        context,
        instructions,
        context.current_instruction_index + 1,
        repay_index,
    )
}

/// The context of the instruction at `index` of the same program, for the
/// same reserve.
pub open spec fn context_at(context: FlashLoanContext, index: u8) -> FlashLoanContext {
    FlashLoanContext {
        current_instruction_index: index,
        program_identifier: context.program_identifier,
        reserve_identifier: context.reserve_identifier,
    }
}

/// What the host shows while the instruction at `current_index` runs at the
/// transaction's level.
pub open spec fn at_level(
    instructions: Seq<InstructionView>,
    current_index: u8,
) -> IntrospectionView {
    IntrospectionView {
        instructions,
        current_index,
        stack_height: TRANSACTION_LEVEL_STACK_HEIGHT,
    }
}

/// A scan that has met no repay ends well, at `repay_index`, exactly when the
/// matching repay stands there and all else from `index` on is inert; one that
/// has met its repay ends well, with it, exactly when all from `index` on is
/// inert.
proof fn lemma_scan_from(
    context: FlashLoanContext,
    liquidity_amount: u64,
    instructions: Seq<InstructionView>,
    index: int,
    found: Option<int>,
    repay_index: int,
)
    requires
        0 <= index,
        found matches Some(met) ==> met < index,
    ensures
        spec_scan_from(context, liquidity_amount, instructions, index, found) == Ok::<
            int,
            LendingError,
        >(repay_index) <==> {
            &&& all_inert_but(context, instructions, index, repay_index)
            &&& match found {
                Some(met) => repay_index == met,
                None => index <= repay_index < instructions.len() && is_matching_repay(
                    context,
                    liquidity_amount,
                    instructions[repay_index],
                ),
            }
        },
    decreases instructions.len() - index,
{
    if index < instructions.len() {
        let here = instructions[index];
        let next_found = if found is None && is_matching_repay(context, liquidity_amount, here) {
            Some(index)
        } else {
            found
        };
        lemma_scan_from(context, liquidity_amount, instructions, index + 1, next_found, repay_index);
        if all_inert_but(context, instructions, index, repay_index) {
            assert(all_inert_but(context, instructions, index + 1, repay_index));
            if index != repay_index {
                assert(is_inert(context, here));
            }
        }
        if all_inert_but(context, instructions, index + 1, repay_index) && (index == repay_index
            || is_inert(context, here)) {
            assert(all_inert_but(context, instructions, index, repay_index));
        }
    }
}

/// The scan that a flash borrow makes succeeds, and gives `repay_index`,
/// exactly when the instruction there is the matching flash repay and no other
/// instruction after the borrow is a flash borrow or a flash repay of this
/// program, or fails to decode for it.
pub proof fn lemma_repay_found_iff_single(
    context: FlashLoanContext,
    liquidity_amount: u64,
    instructions: Seq<InstructionView>,
    repay_index: int,
)
    ensures
        spec_find_flash_repay(context, liquidity_amount, instructions) == Ok::<int, LendingError>(
            repay_index,
        ) <==> single_repay_at(context, liquidity_amount, instructions, repay_index),
{
    lemma_scan_from(
        context,
        liquidity_amount,
        instructions,
        context.current_instruction_index + 1,
        None,
        repay_index,
    );
}

/// The scan passes over inert instructions: from `index` it ends as it does
/// from `later`, when all that stands between the two is inert.
pub proof fn lemma_scan_skips_inert(
    context: FlashLoanContext,
    liquidity_amount: u64,
    instructions: Seq<InstructionView>,
    index: int,
    later: int,
    found: Option<int>,
)
    requires
        0 <= index <= later <= instructions.len(),
        forall|k: int| index <= k < later ==> is_inert(context, #[trigger] instructions[k]),
    ensures
        spec_scan_from(context, liquidity_amount, instructions, index, found) == spec_scan_from(
            context,
            liquidity_amount,
            instructions,
            later,
            found,
        ),
    decreases later - index,
{
    if index < later {
        assert(is_inert(context, instructions[index]));
        lemma_scan_skips_inert(context, liquidity_amount, instructions, index + 1, later, found);
    }
}

/// A scan that has met no repay ends without one exactly when all from
/// `index` on is inert.
proof fn lemma_scan_from_finds_none(
    context: FlashLoanContext,
    liquidity_amount: u64,
    instructions: Seq<InstructionView>,
    index: int,
    found: Option<int>,
)
    requires
        0 <= index,
    ensures
        spec_scan_from(context, liquidity_amount, instructions, index, found) == Err::<
            int,
            LendingError,
        >(LendingError::NoMatchingRepayFound) <==> found is None && all_inert_but(
            context,
            instructions,
            index,
            -1,
        ),
    decreases instructions.len() - index,
{
    if index < instructions.len() {
        let here = instructions[index];
        let next_found = if found is None && is_matching_repay(context, liquidity_amount, here) {
            Some(index)
        } else {
            found
        };
        lemma_scan_from_finds_none(context, liquidity_amount, instructions, index + 1, next_found);
        if all_inert_but(context, instructions, index, -1) {
            assert(all_inert_but(context, instructions, index + 1, -1));
            assert(is_inert(context, here));
        }
        if all_inert_but(context, instructions, index + 1, -1) && is_inert(context, here) {
            assert(all_inert_but(context, instructions, index, -1));
        }
    }
}

/// The scan that a flash borrow makes ends with `NoMatchingRepayFound`
/// exactly when no instruction after the borrow is a flash borrow or a flash
/// repay of this program, or fails to decode for it.
pub proof fn lemma_no_repay_iff_all_inert(
    context: FlashLoanContext,
    liquidity_amount: u64,
    instructions: Seq<InstructionView>,
)
    ensures
        spec_find_flash_repay(context, liquidity_amount, instructions) == Err::<int, LendingError>(
            LendingError::NoMatchingRepayFound,
        ) <==> all_inert_but(
            context,
            instructions,
            context.current_instruction_index + 1,
            -1,
        ),
{
    lemma_scan_from_finds_none(
        context,
        liquidity_amount,
        instructions,
        context.current_instruction_index + 1,
        None,
    );
}

/// The two checks agree. When a flash borrow finds its repay, and the borrow
/// itself is in the list as it ran, then the repay, when its turn comes,
/// finds the borrow valid.
pub proof fn lemma_found_repay_validates(
    context: FlashLoanContext,
    liquidity_amount: u64,
    instructions: Seq<InstructionView>,
    repay_index: u8,
)
    requires
        context.current_instruction_index < instructions.len(),
        is_matching_borrow(
            context,
            liquidity_amount,
            instructions[context.current_instruction_index as int],
        ),
        spec_find_flash_repay(context, liquidity_amount, instructions) == Ok::<int, LendingError>(
            repay_index as int,
        ),
    ensures
        spec_unpack(instructions[repay_index as int].data) == Ok::<
            ProtocolInstruction,
            LendingError,
        >(
            ProtocolInstruction::EndFlashLoan {
                amount: liquidity_amount,
                begin_instruction_index: context.current_instruction_index,
            },
        ),
        spec_validate_flash_borrow(
            context_at(context, repay_index),
            liquidity_amount,
            context.current_instruction_index,
            instructions,
        ) == Ok::<(), LendingError>(()),
{
    lemma_repay_found_iff_single(context, liquidity_amount, instructions, repay_index as int);
}

/// A matching pair is accepted, and leaves the reserve as it found it. In a
/// transaction where a flash borrow is followed by its one matching repay and
/// by no other flash instruction of this program, where both run at the
/// transaction's level and the reserve holds the amount, the borrow succeeds,
/// the repay succeeds after it, and the reserve's ledger is then what it was
/// before the borrow.
pub proof fn lemma_matching_pair_accepted(
    program_id: Pubkey,
    liquidity_amount: u64,
    reserve: Reserve,
    instructions: Seq<InstructionView>,
    borrow_index: u8,
    repay_index: u8,
)
    requires
        borrow_index < instructions.len(),
        is_matching_borrow(
            spec_context(program_id, reserve.key, at_level(instructions, borrow_index)),
            liquidity_amount,
            instructions[borrow_index as int],
        ),
        single_repay_at(
            spec_context(program_id, reserve.key, at_level(instructions, borrow_index)),
            liquidity_amount,
            instructions,
            repay_index as int,
        ),
        spec_borrow(reserve.liquidity, liquidity_amount) is Ok,
    ensures
        spec_flash_borrow(
            program_id,
            liquidity_amount,
            reserve,
            at_level(instructions, borrow_index),
        ) == spec_borrow(reserve.liquidity, liquidity_amount),
        spec_flash_repay(
            program_id,
            liquidity_amount,
            borrow_index,
            Reserve {
                key: reserve.key,
                liquidity: spec_borrow(reserve.liquidity, liquidity_amount)->Ok_0,
            },
            at_level(instructions, repay_index),
        ) == Ok::<ReserveLiquidity, LendingError>(reserve.liquidity),
{
    let context = spec_context(program_id, reserve.key, at_level(instructions, borrow_index));
    lemma_repay_found_iff_single(context, liquidity_amount, instructions, repay_index as int);
    lemma_found_repay_validates(context, liquidity_amount, instructions, repay_index);
    lemma_borrow_then_repay(reserve.liquidity, liquidity_amount);
    assert(context_at(context, repay_index) == spec_context(
        program_id,
        reserve.key,
        at_level(instructions, repay_index),
    ));
}

} // verus!
