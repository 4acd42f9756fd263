//! Escrow rules of a time-boxed fundraising campaign on an account-based
//! ledger.
//!
//! An owner opens a campaign with a target, a window and an asset type;
//! contributors deposit into a custody account that only the campaign can
//! sign for; once the window has gone by, the owner sweeps a campaign that
//! met its target, and each contributor takes back a deposit from one that
//! did not.
//!
//! A handler is shown the accounts of an invocation as plain values and
//! answers with a failure or with the orders to carry out: transfers through
//! the asset sub-ledger, allocations, and the records to store. Whoever
//! runs the handler carries the orders out, in the order given, and gives up
//! the whole invocation if one of them fails.
use vstd::prelude::*;

pub mod account;
pub mod address;
pub mod books;
pub mod bytes;
pub mod constant;
pub mod error;
pub mod instructions;
pub mod rules;
pub mod state;

use crate::account::{Account, Sysvars};
use crate::address::ProgramAddress;
use crate::bytes::keys_equal;
use crate::error::ProgramError;
use crate::instructions::check_contribution::{
    check_contribution_post, process_check_contribution, CheckOutcome,
};
use crate::instructions::contribute::{contribute_post, process_contribute, ContributeOutcome};
use crate::instructions::intialize::{initialize_post, process_initialize, InitializeOutcome};
use crate::instructions::refund::{process_refund, refund_post, RefundOutcome};
use crate::instructions::Instruction;

verus! {

/// Address of this program on the ledger.
pub const ID: [u8; 32] = [
    218, 7, 92, 178, 255, 94, 198, 129, 118, 19, 222, 83, 12, 8, 94, 24, 236, 193, 45, 127, 206,
    201, 143, 129, 166, 179, 234, 11, 138, 3, 182, 219,
];

/// The orders of the handler that an invocation selected.
#[derive(Debug, PartialEq, Eq)]
pub enum Outcome {
    Initialize(InitializeOutcome),
    Contribute(ContributeOutcome),
    Refund(RefundOutcome),
    Check(CheckOutcome),
}

/// What an invocation answers. The first byte of the instruction data
/// selects the handler, which is given the bytes after it.
pub open spec fn instruction_post(
    program_id: Seq<u8>,
    accounts: Seq<Account>,
    instruction_data: Seq<u8>,
    sysvars: Sysvars,
    found: Option<ProgramAddress>,
    result: Result<Outcome, ProgramError>,
) -> bool {
    let data = instruction_data.subrange(1, instruction_data.len() as int);
    if program_id != ID@ {
        result == Err::<Outcome, ProgramError>(ProgramError::IncorrectProgramId)
    } else if instruction_data.len() == 0 {
        result == Err::<Outcome, ProgramError>(ProgramError::InvalidInstructionData)
    } else {
        match Instruction::of_opcode(instruction_data[0]) {
            None => result == Err::<Outcome, ProgramError>(ProgramError::InvalidInstructionData),
            Some(Instruction::Initialize) => match result {
                Ok(Outcome::Initialize(outcome)) => initialize_post(
                    accounts,
                    data,
                    sysvars,
                    found,
                    Ok(outcome),
                ),
                Ok(_) => false,
                Err(error) => initialize_post(accounts, data, sysvars, found, Err(error)),
            },
            Some(Instruction::Contribute) => match result {
                Ok(Outcome::Contribute(outcome)) => contribute_post(
                    accounts,
                    data,
                    sysvars,
                    found,
                    Ok(outcome),
                ),
                Ok(_) => false,
                Err(error) => contribute_post(accounts, data, sysvars, found, Err(error)),
            },
            Some(Instruction::Refund) => match result {
                Ok(Outcome::Refund(outcome)) => refund_post(accounts, sysvars, found, Ok(outcome)),
                Ok(_) => false,
                Err(error) => refund_post(accounts, sysvars, found, Err(error)),
            },
            Some(Instruction::Check) => match result {
                Ok(Outcome::Check(outcome)) => check_contribution_post(
                    accounts,
                    sysvars,
                    found,
                    Ok(outcome),
                ),
                Ok(_) => false,
                Err(error) => check_contribution_post(accounts, sysvars, found, Err(error)),
            },
        }
    }
}

/// Decodes an invocation and runs the handler that it selects.
pub fn process_instruction(
    program_id: &[u8; 32],
    accounts: &[Account],
    instruction_data: &[u8],
    sysvars: &Sysvars,
) -> (result: Result<Outcome, ProgramError>)
    ensures
        exists|found: Option<ProgramAddress>|
            instruction_post(
                program_id@,
                accounts@,
                instruction_data@,
                *sysvars,
                found,
                result,
            ),
        program_id@ != ID@ ==> result == Err::<Outcome, ProgramError>(
            ProgramError::IncorrectProgramId,
        ),
        program_id@ == ID@ && (instruction_data@.len() == 0 || instruction_data@[0] > 3)
            ==> result == Err::<Outcome, ProgramError>(ProgramError::InvalidInstructionData),
{
    if !keys_equal(program_id, &ID) {
        let result = Err(ProgramError::IncorrectProgramId);
        assert(instruction_post(program_id@, accounts@, instruction_data@, *sysvars, None, result));
        return result;
    }
    if instruction_data.len() == 0 {
        let result = Err(ProgramError::InvalidInstructionData);
        assert(instruction_post(program_id@, accounts@, instruction_data@, *sysvars, None, result));
        return result;
    }
    let (discriminator, data) = instruction_data.split_at(1);
    assert(data@ == instruction_data@.subrange(1, instruction_data@.len() as int));
    let instruction = match Instruction::try_from(&discriminator[0]) {
        Ok(instruction) => instruction,
        Err(error) => {
            let result = Err(error);
            assert(instruction_post(
                program_id@,
                accounts@,
                instruction_data@,
                *sysvars,
                None,
                result,
            ));
            return result;
        },
    };
    match instruction {
        Instruction::Initialize => {
            let handled = process_initialize(accounts, data, sysvars);
            let ghost found = choose|found: Option<ProgramAddress>|
                initialize_post(accounts@, data@, *sysvars, found, handled);
            let result = match handled {
                Ok(outcome) => Ok(Outcome::Initialize(outcome)),
                Err(error) => Err(error),
            };
            assert(instruction_post(
                program_id@,
                accounts@,
                instruction_data@,
                *sysvars,
                found,
                result,
            ));
            result
        },
        Instruction::Contribute => {
            let handled = process_contribute(accounts, data, sysvars);
            let ghost found = choose|found: Option<ProgramAddress>|
                contribute_post(accounts@, data@, *sysvars, found, handled);
            let result = match handled {
                Ok(outcome) => Ok(Outcome::Contribute(outcome)),
                Err(error) => Err(error),
            };
            assert(instruction_post(
                program_id@,
                accounts@,
                instruction_data@,
                *sysvars,
                found,
                result,
            ));
            result
        },
        Instruction::Refund => {
            let handled = process_refund(accounts, sysvars);
            let ghost found = choose|found: Option<ProgramAddress>|
                refund_post(accounts@, *sysvars, found, handled);
            let result = match handled {
                Ok(outcome) => Ok(Outcome::Refund(outcome)),
                Err(error) => Err(error),
            };
            assert(instruction_post(
                program_id@,
                accounts@,
                instruction_data@,
                *sysvars,
                found,
                result,
            ));
            result
        },
        Instruction::Check => {
            let handled = process_check_contribution(accounts, sysvars);
            let ghost found = choose|found: Option<ProgramAddress>|
                check_contribution_post(accounts@, *sysvars, found, handled);
            let result = match handled {
                Ok(outcome) => Ok(Outcome::Check(outcome)),
                Err(error) => Err(error),
            };
            assert(instruction_post(
                program_id@,
                accounts@,
                instruction_data@,
                *sysvars,
                found,
                result,
            ));
            result
        },
    }
}

} // verus!
