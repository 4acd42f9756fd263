//! Create: opens a campaign.
use crate::account::{Account, Sysvars};
use crate::address::{find_fundraiser_address, FundraiserSigner, ProgramAddress};
use crate::bytes::{i64_to_unsigned, keys_equal, le_u64, read_array, u64_from_le_bytes, unsigned_bits, u64_to_le_bytes};
use crate::error::ProgramError;
use crate::instructions::CreateHolding;
use crate::state::{FundRaiser, FundRaiserView};
use vstd::prelude::*;

verus! {

/// What a successful Create orders, in this order: allocate the campaign
/// record at its derived address, owned by this program and funded by the
/// owner; allocate the custody account for the asset type, controlled by the
/// campaign record's address and nobody else; store the record.
#[derive(Debug, PartialEq, Eq)]
pub struct InitializeOutcome {
    /// The storage deposit to fund the record with.
    pub lamports: u64,
    /// The number of bytes to allocate for the record.
    pub space: u64,
    /// The authority under which the record's address is created.
    pub signer: FundraiserSigner,
    /// The custody account to create: held by the campaign record's address,
    /// for the campaign's asset type.
    pub vault: CreateHolding,
    /// The record to store.
    pub fundraiser: FundRaiser,
}

/// The target amount that a Create payload names.
pub open spec fn payload_amount(data: Seq<u8>) -> nat {
    le_u64(data.subrange(0, 8))
}

/// The failure, if any, with which Create refuses an invocation. The checks
/// are made in this order and the first that fails decides.
pub open spec fn initialize_error(
    accounts: Seq<Account>,
    data: Seq<u8>,
    sysvars: Sysvars,
    found: Option<ProgramAddress>,
) -> Option<ProgramError> {
    if accounts.len() < 7 {
        Some(ProgramError::NotEnoughAccountKeys)
    } else if data.len() < 9 {
        Some(ProgramError::InvalidInstructionData)
    } else if payload_amount(data) < FundRaiser::MIN_AMOUNT_TO_RAISE {
        Some(ProgramError::InvalidArgument)
    } else if data[8] == 0 {
        Some(ProgramError::InvalidArgument)
    } else if !accounts[0].is_signer {
        Some(ProgramError::MissingRequiredSignature)
    } else if accounts[1].mint is Err {
        Some(accounts[1].mint->Err_0)
    } else if !accounts[1].mint->Ok_0.is_initialized {
        Some(ProgramError::UninitializedAccount)
    } else if !accounts[3].vacant() {
        Some(ProgramError::AccountAlreadyInitialized)
    } else if !accounts[2].vacant() {
        Some(ProgramError::AccountAlreadyInitialized)
    } else if found is None || found->Some_0.address@ != accounts[2].key@ {
        Some(ProgramError::InvalidArgument)
    } else if sysvars.fundraiser_rent is Err {
        Some(sysvars.fundraiser_rent->Err_0)
    } else if sysvars.unix_timestamp is Err {
        Some(sysvars.unix_timestamp->Err_0)
    } else {
        None
    }
}

/// What Create answers: the failure that `initialize_error` names, or else
/// the orders for a campaign that starts now with nothing raised.
pub open spec fn initialize_post(
    accounts: Seq<Account>,
    data: Seq<u8>,
    sysvars: Sysvars,
    found: Option<ProgramAddress>,
    result: Result<InitializeOutcome, ProgramError>,
) -> bool {
    match result {
        Ok(outcome) => {
            &&& initialize_error(accounts, data, sysvars, found) is None
            &&& outcome.lamports == sysvars.fundraiser_rent->Ok_0
            &&& outcome.space == FundRaiser::LEN
            &&& outcome.signer.maker_of() == accounts[0].key@
            &&& outcome.signer.bump_of() == found->Some_0.bump
            &&& outcome.vault.wallet@ == accounts[2].key@
            &&& outcome.vault.mint@ == accounts[1].key@
            &&& outcome.fundraiser@ == (FundRaiserView {
                maker: accounts[0].key@,
                mint_to_raise: accounts[1].key@,
                amount_to_raise: payload_amount(data),
                current_amount: 0,
                time_started: unsigned_bits(sysvars.unix_timestamp->Ok_0),
                duration: data[8],
                bump: found->Some_0.bump,
            })
        },
        Err(error) => initialize_error(accounts, data, sysvars, found) == Some(error),
    }
}

/// Create, given what the search for the campaign record's address found.
///
/// Accounts, by position: the owner, the asset type, the campaign record,
/// the custody account, then the three programs that the orders involve.
/// Payload: the target amount in eight little-endian bytes, then the
/// duration in one byte.
pub fn initialize(
    accounts: &[Account],
    data: &[u8],
    sysvars: &Sysvars,
    found: Option<ProgramAddress>,
) -> (result: Result<InitializeOutcome, ProgramError>)
    ensures
        initialize_post(accounts@, data@, *sysvars, found, result),
        result is Ok ==> {
            &&& payload_amount(data@) >= FundRaiser::MIN_AMOUNT_TO_RAISE
            &&& result->Ok_0.fundraiser@.duration > 0
            &&& result->Ok_0.fundraiser@.current_amount == 0
            &&& result->Ok_0.fundraiser@.time_started == unsigned_bits(
                sysvars.unix_timestamp->Ok_0,
            )
            &&& accounts@[2].vacant()
            &&& accounts@[3].vacant()
        },
{
    if accounts.len() < 7 {
        return Err(ProgramError::NotEnoughAccountKeys);
    }
    let maker = &accounts[0];
    let mint_to_raise = &accounts[1];
    let fundraiser = &accounts[2];
    let vault = &accounts[3];

    if data.len() < 9 {
        return Err(ProgramError::InvalidInstructionData);
    }
    let amount_to_raise = u64_from_le_bytes(&read_array::<8>(data, 0));
    let duration = data[8];

    if amount_to_raise < FundRaiser::MIN_AMOUNT_TO_RAISE {
        return Err(ProgramError::InvalidArgument);
    }
    if duration == 0 {
        return Err(ProgramError::InvalidArgument);
    }
    if !maker.is_signer {
        return Err(ProgramError::MissingRequiredSignature);
    }
    let mint = match mint_to_raise.mint {
        Ok(mint) => mint,
        Err(error) => {
            return Err(error);
        },
    };
    if !mint.is_initialized {
        return Err(ProgramError::UninitializedAccount);
    }
    if !vault.is_vacant() {
        return Err(ProgramError::AccountAlreadyInitialized);
    }
    if !fundraiser.is_vacant() {
        return Err(ProgramError::AccountAlreadyInitialized);
    }
    let bump = match found {
        Some(derived) => {
            if !keys_equal(&derived.address, &fundraiser.key) {
                return Err(ProgramError::InvalidArgument);
            }
            derived.bump
        },
        None => {
            return Err(ProgramError::InvalidArgument);
        },
    };
    let lamports = match sysvars.fundraiser_rent {
        Ok(lamports) => lamports,
        Err(error) => {
            return Err(error);
        },
    };
    let now = match sysvars.unix_timestamp {
        Ok(now) => now,
        Err(error) => {
            return Err(error);
        },
    };
    let record = FundRaiser {
        maker: maker.key,
        mint_to_raise: mint_to_raise.key,
        amount_to_raise: u64_to_le_bytes(amount_to_raise),
        current_amount: u64_to_le_bytes(0),
        time_started: u64_to_le_bytes(i64_to_unsigned(now)),
        duration: [duration],
        bump: [bump],
    };
    Ok(
        InitializeOutcome {
            lamports,
            space: FundRaiser::LEN as u64,
            signer: FundraiserSigner::new(maker.key, bump),
            vault: CreateHolding { wallet: fundraiser.key, mint: mint_to_raise.key },
            fundraiser: record,
        },
    )
}

/// Create: searches for the campaign record's address and decides on what
/// the search found.
pub fn process_initialize(accounts: &[Account], data: &[u8], sysvars: &Sysvars) -> (result: Result<
    InitializeOutcome,
    ProgramError,
>)
    ensures
        exists|found: Option<ProgramAddress>|
            initialize_post(accounts@, data@, *sysvars, found, result),
        accounts@.len() < 7 ==> result == Err::<InitializeOutcome, ProgramError>(
            ProgramError::NotEnoughAccountKeys,
        ),
        result is Ok ==> {
            &&& payload_amount(data@) >= FundRaiser::MIN_AMOUNT_TO_RAISE
            &&& result->Ok_0.fundraiser@.duration > 0
            &&& result->Ok_0.fundraiser@.current_amount == 0
            &&& result->Ok_0.fundraiser@.time_started == unsigned_bits(
                sysvars.unix_timestamp->Ok_0,
            )
            &&& accounts@[2].vacant()
            &&& accounts@[3].vacant()
        },
{
    if accounts.len() < 7 {
        let result = Err(ProgramError::NotEnoughAccountKeys);
        assert(initialize_post(accounts@, data@, *sysvars, None, result));
        return result;
    }
    let found = find_fundraiser_address(&accounts[0].key);
    let result = initialize(accounts, data, sysvars, found);
    assert(initialize_post(accounts@, data@, *sysvars, found, result));
    result
}

} // verus!
