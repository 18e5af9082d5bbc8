//! The instructions of the flash loan protocol and their wire format.
//!
//! An instruction's data starts with one tag byte. A flash borrow is its tag
//! and the amount; a flash repay is its tag, the amount and the index of the
//! borrow that it answers. Amounts are eight bytes, least significant first.
//! Bytes after the payload are not read.

use crate::error::LendingError;
use crate::wire::{
    le_bytes, le_value, lemma_le_bytes_len, lemma_le_bytes_of_value, lemma_le_range_u64,
    lemma_le_value_bound, lemma_le_value_of_bytes, read_le, write_le,
};
use vstd::prelude::*;

verus! {

/// Tag of a flash borrow.
pub const BEGIN_FLASH_LOAN_TAG: u8 = 19;

/// Tag of a flash repay.
pub const END_FLASH_LOAN_TAG: u8 = 20;

/// Length of a flash borrow on the wire: the tag and the amount.
pub const BEGIN_FLASH_LOAN_LEN: usize = 9;

/// Length of a flash repay on the wire: the tag, the amount and the index.
pub const END_FLASH_LOAN_LEN: usize = 10;

/// An instruction of this program, as far as flash loans care.
#[derive(Clone, Copy, Debug, PartialEq, Eq, Structural)]
pub enum ProtocolInstruction {
    /// Borrow `amount` from a reserve, to be repaid in the same transaction.
    BeginFlashLoan { amount: u64 },
    /// Repay `amount`, borrowed by the instruction at `begin_instruction_index`.
    EndFlashLoan { amount: u64, begin_instruction_index: u8 },
    /// Any instruction with another tag.
    Other,
}

/// The amount that the eight bytes after the tag spell.
pub open spec fn spec_amount(data: Seq<u8>) -> u64 {
    le_value(data.subrange(1, 9)) as u64
}

/// What instruction data decodes to. Data without a tag, and data too short
/// for the payload that its tag announces, do not decode.
pub open spec fn spec_unpack(data: Seq<u8>) -> Result<ProtocolInstruction, LendingError> {
    if data.len() == 0 {
        Err(LendingError::InstructionUnpackError)
    } else if data[0] == BEGIN_FLASH_LOAN_TAG {
        if data.len() < BEGIN_FLASH_LOAN_LEN {
            Err(LendingError::InstructionUnpackError)
        } else {
            Ok(ProtocolInstruction::BeginFlashLoan { amount: spec_amount(data) })
        }
    } else if data[0] == END_FLASH_LOAN_TAG {
        if data.len() < END_FLASH_LOAN_LEN {
            Err(LendingError::InstructionUnpackError)
        } else {
            Ok(
                ProtocolInstruction::EndFlashLoan {
                    amount: spec_amount(data),
                    begin_instruction_index: data[9],
                },
            )
        }
    } else {
        Ok(ProtocolInstruction::Other)
    }
}

/// The data of a flash borrow or a flash repay. `Other` stands for every
/// instruction outside the protocol and has no data of its own.
pub open spec fn spec_pack(instruction: ProtocolInstruction) -> Option<Seq<u8>> {
    match instruction {
        ProtocolInstruction::BeginFlashLoan { amount } => Some(
            seq![BEGIN_FLASH_LOAN_TAG] + le_bytes(amount as nat, 8),
        ),
        ProtocolInstruction::EndFlashLoan { amount, begin_instruction_index } => Some(
            seq![END_FLASH_LOAN_TAG] + le_bytes(amount as nat, 8) + seq![begin_instruction_index],
        ),
        ProtocolInstruction::Other => None,
    }
}

impl ProtocolInstruction {
    /// Decodes instruction data.
    pub fn unpack(input: &[u8]) -> (decoded: Result<ProtocolInstruction, LendingError>)
        ensures
            decoded == spec_unpack(input@),
    {
        if input.len() == 0 {
            return Err(LendingError::InstructionUnpackError);
        }
        let tag = input[0];
        if tag == BEGIN_FLASH_LOAN_TAG {
            if input.len() < BEGIN_FLASH_LOAN_LEN {
                return Err(LendingError::InstructionUnpackError);
            }
            let amount = read_le(input, 1, 8);
            Ok(ProtocolInstruction::BeginFlashLoan { amount })
        } else if tag == END_FLASH_LOAN_TAG {
            if input.len() < END_FLASH_LOAN_LEN {
                return Err(LendingError::InstructionUnpackError);
            }
            let amount = read_le(input, 1, 8);
            let begin_instruction_index = input[9];
            Ok(ProtocolInstruction::EndFlashLoan { amount, begin_instruction_index })
        } else {
            Ok(ProtocolInstruction::Other)
        }
    }

    /// Encodes a flash borrow or a flash repay; `None` for `Other`.
    pub fn pack(&self) -> (encoded: Option<Vec<u8>>)
        ensures
            match encoded {
                Some(data) => spec_pack(*self) == Some(data@),
                None => spec_pack(*self) is None,
            },
    {
        match *self {
            ProtocolInstruction::BeginFlashLoan { amount } => {
                let mut data: Vec<u8> = Vec::new();
                data.push(BEGIN_FLASH_LOAN_TAG);
                write_le(&mut data, amount, 8);
                Some(data)
            },
            ProtocolInstruction::EndFlashLoan { amount, begin_instruction_index } => {
                let mut data: Vec<u8> = Vec::new();
                data.push(END_FLASH_LOAN_TAG);
                write_le(&mut data, amount, 8);
                data.push(begin_instruction_index);
                Some(data)
            },
            ProtocolInstruction::Other => None,
        }
    }
}

/// Encoding a flash borrow or a flash repay and decoding the data, with
/// whatever bytes follow it, gives the instruction back: every amount and
/// every index survives the wire.
pub proof fn lemma_pack_unpack(instruction: ProtocolInstruction, trailing: Seq<u8>)
    requires
        !(instruction is Other),
    ensures
        spec_pack(instruction) is Some,
        spec_unpack(spec_pack(instruction)->0 + trailing) == Ok::<
            ProtocolInstruction,
            LendingError,
        >(instruction),
{
    let data = spec_pack(instruction)->0 + trailing;
    lemma_le_range_u64();
    match instruction {
        ProtocolInstruction::BeginFlashLoan { amount } => {
            lemma_le_bytes_len(amount as nat, 8);
            lemma_le_value_of_bytes(amount as nat, 8);
            assert(data.subrange(1, 9) =~= le_bytes(amount as nat, 8));
        },
        ProtocolInstruction::EndFlashLoan { amount, begin_instruction_index } => {
            lemma_le_bytes_len(amount as nat, 8);
            lemma_le_value_of_bytes(amount as nat, 8);
            assert(data.subrange(1, 9) =~= le_bytes(amount as nat, 8));
        },
        ProtocolInstruction::Other => {},
    }
}

/// Data that decodes to a flash borrow or a flash repay starts with exactly
/// the bytes that encoding the decoded instruction gives.
pub proof fn lemma_unpack_pack(data: Seq<u8>)
    requires
        spec_unpack(data) is Ok,
        !(spec_unpack(data)->Ok_0 is Other),
    ensures
        spec_pack(spec_unpack(data)->Ok_0) is Some,
        spec_pack(spec_unpack(data)->Ok_0)->0.is_prefix_of(data),
{
    let instruction = spec_unpack(data)->Ok_0;
    let encoded = spec_pack(instruction)->0;
    let amount_bytes = data.subrange(1, 9);
    lemma_le_range_u64();
    lemma_le_value_bound(amount_bytes);
    lemma_le_bytes_of_value(amount_bytes);
    lemma_le_bytes_len(spec_amount(data) as nat, 8);
    assert(encoded =~= data.subrange(0, encoded.len() as int));
}

} // verus!
