//! Decoding an invocation and selecting its handler.
use pinocchio_fundraising::account::{Account, Mint, Sysvars};
use pinocchio_fundraising::error::{to_program_error, FundRaiserError, ProgramError};
use pinocchio_fundraising::instructions::{
    process_check_contribution, process_contribute, process_initialize, process_refund, Instruction,
};
use pinocchio_fundraising::{process_instruction, ID};

fn account(tag: u8) -> Account {
    Account {
        key: [tag; 32],
        is_signer: true,
        lamports: 0,
        data: vec![],
        token: Err(ProgramError::InvalidAccountData),
        mint: Ok(Mint { decimals: 6, is_initialized: true }),
    }
}

fn accounts(count: u8) -> Vec<Account> {
    (0..count).map(account).collect()
}

fn sysvars() -> Sysvars {
    Sysvars { unix_timestamp: Ok(0), fundraiser_rent: Ok(0), contributor_rent: Ok(0) }
}

#[test]
fn opcodes_select_the_four_handlers() {
    assert_eq!(Instruction::try_from(&0), Ok(Instruction::Initialize));
    assert_eq!(Instruction::try_from(&1), Ok(Instruction::Contribute));
    assert_eq!(Instruction::try_from(&2), Ok(Instruction::Refund));
    assert_eq!(Instruction::try_from(&3), Ok(Instruction::Check));
    for value in 4..=u8::MAX {
        assert_eq!(Instruction::try_from(&value), Err(ProgramError::InvalidInstructionData));
    }
}

#[test]
fn campaign_failures_have_their_codes() {
    assert_eq!(
        to_program_error(FundRaiserError::InsufficientFundRaised),
        ProgramError::Custom(0x10)
    );
    assert_eq!(to_program_error(FundRaiserError::DurationNotReached), ProgramError::Custom(0x11));
    assert_eq!(to_program_error(FundRaiserError::TargetMet), ProgramError::Custom(0x12));
}

#[test]
fn program_id_is_the_declared_address() {
    assert_eq!(ID, pinocchio_pubkey::from_str("Fg6PaFpoGXkYsidMpWxTWqfQRyQ4aW5n5g5g5g5g5g5g"));
}

#[test]
fn invocation_for_another_program_is_refused() {
    let mut other = ID;
    other[31] ^= 1;
    assert_eq!(
        process_instruction(&other, &accounts(9), &[3], &sysvars()),
        Err(ProgramError::IncorrectProgramId)
    );
    assert_eq!(
        process_instruction(&other, &[], &[], &sysvars()),
        Err(ProgramError::IncorrectProgramId)
    );
}

#[test]
fn invocation_without_a_known_opcode_is_refused() {
    assert_eq!(
        process_instruction(&ID, &accounts(9), &[], &sysvars()),
        Err(ProgramError::InvalidInstructionData)
    );
    assert_eq!(
        process_instruction(&ID, &accounts(9), &[4, 0, 0], &sysvars()),
        Err(ProgramError::InvalidInstructionData)
    );
}

#[test]
fn invocation_reaches_the_selected_handler() {
    // Each handler asks for its own number of accounts.
    assert_eq!(
        process_instruction(&ID, &accounts(6), &[0], &sysvars()),
        Err(ProgramError::NotEnoughAccountKeys)
    );
    assert_eq!(
        process_instruction(&ID, &accounts(7), &[1], &sysvars()),
        Err(ProgramError::NotEnoughAccountKeys)
    );
    assert_eq!(
        process_instruction(&ID, &accounts(8), &[2], &sysvars()),
        Err(ProgramError::NotEnoughAccountKeys)
    );
    assert_eq!(
        process_instruction(&ID, &accounts(7), &[3], &sysvars()),
        Err(ProgramError::NotEnoughAccountKeys)
    );
    // The handler is given the bytes after the opcode.
    assert_eq!(
        process_instruction(&ID, &accounts(7), &[0, 1, 2, 3, 4, 5, 6, 7, 8], &sysvars()),
        Err(ProgramError::InvalidInstructionData)
    );
    assert_eq!(
        process_instruction(&ID, &accounts(7), &[0, 2, 0, 0, 0, 0, 0, 0, 0, 1], &sysvars()),
        Err(ProgramError::InvalidArgument)
    );
    assert_eq!(
        process_instruction(&ID, &accounts(8), &[1, 1, 2, 3, 4, 5, 6, 7], &sysvars()),
        Err(ProgramError::InvalidInstructionData)
    );
    // Refund and Finalize first look at the campaign record.
    assert_eq!(
        process_instruction(&ID, &accounts(9), &[2], &sysvars()),
        Err(ProgramError::InvalidAccountData)
    );
    assert_eq!(
        process_instruction(&ID, &accounts(8), &[3], &sysvars()),
        Err(ProgramError::InvalidAccountData)
    );
}

#[test]
fn handlers_ask_for_their_accounts() {
    assert_eq!(
        process_initialize(&accounts(6), &[0; 9], &sysvars()),
        Err(ProgramError::NotEnoughAccountKeys)
    );
    assert_eq!(
        process_contribute(&accounts(7), &[0; 8], &sysvars()),
        Err(ProgramError::NotEnoughAccountKeys)
    );
    assert_eq!(process_refund(&accounts(8), &sysvars()), Err(ProgramError::NotEnoughAccountKeys));
    assert_eq!(
        process_check_contribution(&accounts(7), &sysvars()),
        Err(ProgramError::NotEnoughAccountKeys)
    );
}

#[test]
fn without_a_runtime_no_address_is_found() {
    // Everything that Create checks before the address holds.
    let mut payload = 10_000_000u64.to_le_bytes().to_vec();
    payload.push(1);
    assert_eq!(
        process_initialize(&accounts(7), &payload, &sysvars()),
        Err(ProgramError::InvalidArgument)
    );
    let mut invocation = vec![0u8];
    invocation.extend_from_slice(&payload);
    assert_eq!(
        process_instruction(&ID, &accounts(7), &invocation, &sysvars()),
        Err(ProgramError::InvalidArgument)
    );
}
