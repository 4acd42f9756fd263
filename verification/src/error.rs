//! Failure codes that a handler reports.
use vstd::prelude::*;

verus! {

/// Failures of the campaign rules themselves.
#[derive(Clone, Copy, Debug, PartialEq, Eq, Structural)]
pub enum FundRaiserError {
    /// A sweep was attempted before the target was met and the window closed.
    InsufficientFundRaised,
    /// A refund was attempted while the campaign window was still open.
    DurationNotReached,
    /// A refund was attempted although the target had been met.
    TargetMet,
}

/// Reasons for which an invocation fails, as the runtime reports them.
#[derive(Clone, Copy, Debug, PartialEq, Eq, Structural)]
pub enum ProgramError {
    /// A failure of the program's own rules, by its code.
    Custom(u32),
    InvalidArgument,
    InvalidInstructionData,
    InvalidAccountData,
    AccountDataTooSmall,
    InsufficientFunds,
    IncorrectProgramId,
    MissingRequiredSignature,
    AccountAlreadyInitialized,
    UninitializedAccount,
    NotEnoughAccountKeys,
    AccountBorrowFailed,
    MaxSeedLengthExceeded,
    InvalidSeeds,
    BorshIoError,
    AccountNotRentExempt,
    UnsupportedSysvar,
    IllegalOwner,
    MaxAccountsDataAllocationsExceeded,
    InvalidRealloc,
    MaxInstructionTraceLengthExceeded,
    BuiltinProgramsMustConsumeComputeUnits,
    InvalidAccountOwner,
    ArithmeticOverflow,
    Immutable,
    IncorrectAuthority,
}

/// The code under which each failure of the campaign rules is reported.
pub open spec fn error_code(err: FundRaiserError) -> u32 {
    match err {
        FundRaiserError::InsufficientFundRaised => 0x10,
        FundRaiserError::DurationNotReached => 0x11,
        FundRaiserError::TargetMet => 0x12,
    }
}

/// Turns a failure of the campaign rules into the reportable code.
pub fn to_program_error(err: FundRaiserError) -> (e: ProgramError)
    ensures
        e == ProgramError::Custom(error_code(err)),
{
    match err {
        FundRaiserError::InsufficientFundRaised => ProgramError::Custom(0x10),
        FundRaiserError::DurationNotReached => ProgramError::Custom(0x11),
        FundRaiserError::TargetMet => ProgramError::Custom(0x12),
    }
}

/// Distinct failures are reported under distinct codes.
pub proof fn lemma_error_codes_distinct(a: FundRaiserError, b: FundRaiserError)
    ensures
        error_code(a) == error_code(b) <==> a == b,
{
}

} // verus!
