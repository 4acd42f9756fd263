//! The four handlers and the opcode that selects one.
use crate::error::ProgramError;
use vstd::prelude::*;

pub mod check_contribution;
pub mod contribute;
pub mod intialize;
pub mod refund;

pub use check_contribution::process_check_contribution;
pub use contribute::process_contribute;
pub use intialize::process_initialize;
pub use refund::process_refund;

verus! {

/// The order to create an asset holding through the asset sub-ledger.
#[derive(Clone, Copy, Debug, PartialEq, Eq)]
pub struct CreateHolding {
    /// Who is to control the holding.
    pub wallet: [u8; 32],
    /// The asset type that it is to hold.
    pub mint: [u8; 32],
}

/// The handler that an invocation asks for.
#[derive(Clone, Copy, Debug, PartialEq, Eq, Structural)]
pub enum Instruction {
    /// Create a campaign.
    Initialize,
    /// Deposit into a campaign.
    Contribute,
    /// Take a deposit back from a campaign that missed its target.
    Refund,
    /// Sweep a campaign that met its target.
    Check,
}

impl Instruction {
    /// The handler that an opcode selects, if any.
    pub open spec fn of_opcode(value: u8) -> Option<Instruction> {
        if value == 0 {
            Some(Instruction::Initialize)
        } else if value == 1 {
            Some(Instruction::Contribute)
        } else if value == 2 {
            Some(Instruction::Refund)
        } else if value == 3 {
            Some(Instruction::Check)
        } else {
            None
        }
    }

    /// The opcode that selects a handler.
    pub open spec fn opcode(self) -> u8 {
        match self {
            Instruction::Initialize => 0,
            Instruction::Contribute => 1,
            Instruction::Refund => 2,
            Instruction::Check => 3,
        }
    }

    /// Decodes an opcode.
    pub fn try_from(value: &u8) -> (result: Result<Instruction, ProgramError>)
        ensures
            result == match Self::of_opcode(*value) {
                Some(instruction) => Ok::<Instruction, ProgramError>(instruction),
                None => Err::<Instruction, ProgramError>(ProgramError::InvalidInstructionData),
            },
    {
        match *value {
            0 => Ok(Instruction::Initialize),
            1 => Ok(Instruction::Contribute),
            2 => Ok(Instruction::Refund),
            3 => Ok(Instruction::Check),
            _ => Err(ProgramError::InvalidInstructionData),
        }
    }
}

/// Every handler has its own opcode, and decoding it gives the handler back.
pub proof fn lemma_opcode_round_trip(instruction: Instruction, value: u8)
    ensures
        Instruction::of_opcode(instruction.opcode()) == Some(instruction),
        Instruction::of_opcode(value) == Some(instruction) <==> value == instruction.opcode(),
{
}

} // verus!
