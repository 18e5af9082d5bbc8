//! The instructions of the running transaction, as the host shows them.
//!
//! The list holds the transaction's top-level instructions only: what a
//! program invokes from inside an instruction never enters it.

use crate::error::LendingError;
use crate::pubkey::Pubkey;
use vstd::prelude::*;

verus! {

/// Call-stack height at which the host runs a transaction's own instructions.
/// Every nested invocation runs higher.
pub const TRANSACTION_LEVEL_STACK_HEIGHT: u8 = 1;

/// One instruction of a transaction.
#[derive(Clone, Debug)]
pub struct Instruction {
    /// The program that the instruction is addressed to.
    pub program_id: Pubkey,
    /// The accounts that the instruction names, in order.
    pub accounts: Vec<Pubkey>,
    /// The instruction's data, opaque to all but its program.
    pub data: Vec<u8>,
}

/// An instruction as a mathematical value.
pub struct InstructionView {
    pub program_id: Pubkey,
    pub accounts: Seq<Pubkey>,
    pub data: Seq<u8>,
}

impl View for Instruction {
    type V = InstructionView;

    open spec fn view(&self) -> InstructionView {
        InstructionView { program_id: self.program_id, accounts: self.accounts@, data: self.data@ }
    }
}

impl Instruction {
    /// An instruction for `program_id` with the given accounts and data.
    pub fn new(program_id: Pubkey, accounts: Vec<Pubkey>, data: Vec<u8>) -> (instruction:
        Instruction)
        ensures
            instruction@ == (InstructionView {
                program_id,
                accounts: accounts@,
                data: data@,
            }),
    {
        Instruction { program_id, accounts, data }
    }
}

/// The instructions of a list as mathematical values, in the list's order.
pub open spec fn instruction_views(instructions: Seq<Instruction>) -> Seq<InstructionView> {
    Seq::new(instructions.len(), |i: int| instructions[i]@)
}

/// What a program can learn of the transaction that it runs in: the list of the
/// transaction's instructions, which of them is running, and how deep in
/// nested invocations the running code is.
#[derive(Clone, Debug)]
pub struct Introspection {
    instructions: Vec<Instruction>,
    current_index: u8,
    stack_height: u8,
}

/// An introspection handle as a mathematical value.
pub struct IntrospectionView {
    pub instructions: Seq<InstructionView>,
    pub current_index: u8,
    pub stack_height: u8,
}

impl View for Introspection {
    type V = IntrospectionView;

    closed spec fn view(&self) -> IntrospectionView {
        IntrospectionView {
            instructions: instruction_views(self.instructions@),
            current_index: self.current_index,
            stack_height: self.stack_height,
        }
    }
}

/// What loading the instruction at `index` gives.
pub open spec fn spec_load(instructions: Seq<InstructionView>, index: int) -> Result<
    InstructionView,
    LendingError,
> {
    if 0 <= index < instructions.len() {
        Ok(instructions[index])
    } else {
        Err(LendingError::OutOfBoundsIndex)
    }
}

impl Introspection {
    /// The handle of a transaction with the given instructions, of which the
    /// one at `current_index` runs at call-stack height `stack_height`.
    pub fn new(instructions: Vec<Instruction>, current_index: u8, stack_height: u8) -> (handle:
        Introspection)
        ensures
            handle@.instructions == instruction_views(instructions@),
            handle@.current_index == current_index,
            handle@.stack_height == stack_height,
    {
        Introspection { instructions, current_index, stack_height }
    }

    /// The instruction at `index`, or `OutOfBoundsIndex` past the end of the
    /// list.
    pub fn load_instruction_at(&self, index: usize) -> (loaded: Result<&Instruction, LendingError>)
        ensures
            match loaded {
                Ok(instruction) => spec_load(self@.instructions, index as int) == Ok::<
                    InstructionView,
                    LendingError,
                >(instruction@),
                Err(e) => spec_load(self@.instructions, index as int) == Err::<
                    InstructionView,
                    LendingError,
                >(e),
            },
    {
        if index < self.instructions.len() {
            Ok(&self.instructions[index])
        } else {
            Err(LendingError::OutOfBoundsIndex)
        }
    }

    /// A list that a machine holds has an index for each of its instructions.
    pub proof fn lemma_indices_fit(&self)
        ensures
            self@.instructions.len() <= usize::MAX,
    {
        assert(self.instructions@.len() == self.instructions.len());
    }

    /// The index of the instruction that is running.
    pub fn current_instruction_index(&self) -> (index: u8)
        ensures
            index == self@.current_index,
    {
        self.current_index
    }

    /// The height of the call stack: `TRANSACTION_LEVEL_STACK_HEIGHT` in an
    /// instruction of the transaction itself, more in a nested invocation.
    pub fn current_call_stack_depth(&self) -> (depth: u8)
        ensures
            depth == self@.stack_height,
    {
        self.stack_height
    }
}

} // verus!
