//! Finalize: the owner sweeps a campaign that met its target.
use crate::account::{Account, Sysvars};
use crate::address::{find_fundraiser_address, FundraiserSigner, ProgramAddress};
use crate::bytes::{i64_to_unsigned, keys_equal, unsigned_bits};
use crate::error::{error_code, to_program_error, FundRaiserError, ProgramError};
use crate::instructions::CreateHolding;
use crate::rules::{is_window_elapsed, sweep_allowed, window_elapsed};
use crate::state::FundRaiser;
use vstd::prelude::*;

verus! {

/// What a successful Finalize orders, in this order: create the owner's
/// holding if there is none yet; move the whole custody balance into it, on
/// the campaign's authority; close the custody account, its storage deposit
/// going to the owner, on the campaign's authority; move the campaign
/// record's own storage deposit to the owner, which leaves the record with
/// none (`sweep_lamports` computes both balances); store the record, which
/// now says nothing.
#[derive(Debug, PartialEq, Eq)]
pub struct CheckOutcome {
    /// The owner's holding to create first, where the owner has none: held
    /// by the owner, for the campaign's asset type.
    pub create_maker_ata: Option<CreateHolding>,
    /// The amount to move out of custody: all of it.
    pub amount: u64,
    /// The authority for the transfer.
    pub transfer_signer: FundraiserSigner,
    /// The authority for closing the custody account.
    pub close_signer: FundraiserSigner,
    /// The storage deposit to move from the campaign record to the owner:
    /// all that the record has.
    pub lamports: u64,
    /// The record to store.
    pub fundraiser: FundRaiser,
}

/// The failure, if any, with which Finalize refuses an invocation. The
/// checks are made in this order and the first that fails decides.
pub open spec fn check_contribution_error(
    accounts: Seq<Account>,
    sysvars: Sysvars,
    found: Option<ProgramAddress>,
) -> Option<ProgramError> {
    let campaign = FundRaiser::view_of(accounts[2].data@);
    if accounts.len() < 8 {
        Some(ProgramError::NotEnoughAccountKeys)
    } else if !accounts[0].is_signer {
        Some(ProgramError::MissingRequiredSignature)
    } else if accounts[2].missing() {
        Some(ProgramError::InvalidAccountData)
    } else if accounts[2].data@.len() != FundRaiser::LEN {
        Some(ProgramError::InvalidAccountData)
    } else if accounts[1].key@ != campaign.mint_to_raise {
        Some(ProgramError::InvalidAccountData)
    } else if found is None || found->Some_0.address@ != accounts[2].key@ {
        Some(ProgramError::InvalidAccountData)
    } else if accounts[3].token is Err {
        Some(accounts[3].token->Err_0)
    } else if accounts[3].token->Ok_0.mint@ != accounts[1].key@
        || accounts[3].token->Ok_0.owner@ != accounts[2].key@ {
        Some(ProgramError::InvalidAccountData)
    } else if !accounts[4].vacant() && accounts[4].token is Err {
        Some(accounts[4].token->Err_0)
    } else if !accounts[4].vacant() && (accounts[4].token->Ok_0.mint@ != accounts[1].key@
        || accounts[4].token->Ok_0.owner@ != accounts[0].key@) {
        Some(ProgramError::InvalidAccountData)
    } else if accounts[3].token->Ok_0.amount < campaign.amount_to_raise {
        Some(ProgramError::Custom(error_code(FundRaiserError::InsufficientFundRaised)))
    } else if sysvars.unix_timestamp is Err {
        Some(sysvars.unix_timestamp->Err_0)
    } else if !window_elapsed(
        campaign.time_started,
        campaign.duration as nat,
        unsigned_bits(sysvars.unix_timestamp->Ok_0),
    ) {
        Some(ProgramError::Custom(error_code(FundRaiserError::InsufficientFundRaised)))
    } else {
        None
    }
}

/// What Finalize answers: the failure that `check_contribution_error`
/// names, or else the orders that hand all of custody and both storage
/// deposits to the owner.
pub open spec fn check_contribution_post(
    accounts: Seq<Account>,
    sysvars: Sysvars,
    found: Option<ProgramAddress>,
    result: Result<CheckOutcome, ProgramError>,
) -> bool {
    let campaign = FundRaiser::view_of(accounts[2].data@);
    match result {
        Ok(outcome) => {
            &&& check_contribution_error(accounts, sysvars, found) is None
            &&& outcome.create_maker_ata is Some <==> accounts[4].vacant()
            &&& outcome.create_maker_ata matches Some(create) ==> {
                &&& create.wallet@ == accounts[0].key@
                &&& create.mint@ == accounts[1].key@
            }
            &&& outcome.amount == accounts[3].token->Ok_0.amount
            &&& outcome.lamports == accounts[2].lamports
            &&& outcome.transfer_signer.maker_of() == accounts[0].key@
            &&& outcome.transfer_signer.bump_of() == campaign.bump
            &&& outcome.close_signer.maker_of() == accounts[0].key@
            &&& outcome.close_signer.bump_of() == campaign.bump
            &&& outcome.fundraiser.zeroed()
        },
        Err(error) => check_contribution_error(accounts, sysvars, found) == Some(error),
    }
}

/// Finalize, given what the search for the campaign record's address found.
///
/// Accounts, by position: the owner, the asset type, the campaign record,
/// the custody account, the owner's holding, then the three programs that
/// the orders involve.
pub fn check_contribution(
    accounts: &[Account],
    sysvars: &Sysvars,
    found: Option<ProgramAddress>,
) -> (result: Result<CheckOutcome, ProgramError>)
    ensures
        check_contribution_post(accounts@, *sysvars, found, result),
        result is Ok ==> sweep_allowed(
            accounts@[3].token->Ok_0.amount as nat,
            FundRaiser::view_of(accounts@[2].data@).amount_to_raise,
            FundRaiser::view_of(accounts@[2].data@).time_started,
            FundRaiser::view_of(accounts@[2].data@).duration as nat,
            unsigned_bits(sysvars.unix_timestamp->Ok_0),
        ),
{
    if accounts.len() < 8 {
        return Err(ProgramError::NotEnoughAccountKeys);
    }
    let maker = &accounts[0];
    let mint_to_raise = &accounts[1];
    let fundraiser = &accounts[2];
    let vault = &accounts[3];
    let maker_ata = &accounts[4];

    if !maker.is_signer {
        return Err(ProgramError::MissingRequiredSignature);
    }
    if fundraiser.is_missing() {
        return Err(ProgramError::InvalidAccountData);
    }
    let fundraiser_state = match FundRaiser::from_account_info(fundraiser) {
        Ok(state) => state,
        Err(error) => {
            return Err(error);
        },
    };
    if !keys_equal(&mint_to_raise.key, &fundraiser_state.mint_to_raise()) {
        return Err(ProgramError::InvalidAccountData);
    }
    match found {
        Some(derived) => {
            if !keys_equal(&derived.address, &fundraiser.key) {
                return Err(ProgramError::InvalidAccountData);
            }
        },
        None => {
            return Err(ProgramError::InvalidAccountData);
        },
    }
    let custody = match vault.token {
        Ok(holding) => holding,
        Err(error) => {
            return Err(error);
        },
    };
    if !keys_equal(&custody.mint, &mint_to_raise.key) || !keys_equal(
        &custody.owner,
        &fundraiser.key,
    ) {
        return Err(ProgramError::InvalidAccountData);
    }
    let mut create_maker_ata: Option<CreateHolding> = None;
    if maker_ata.is_vacant() {
        create_maker_ata = Some(CreateHolding { wallet: maker.key, mint: mint_to_raise.key });
    } else {
        let holding = match maker_ata.token {
            Ok(holding) => holding,
            Err(error) => {
                return Err(error);
            },
        };
        if !keys_equal(&holding.mint, &mint_to_raise.key) || !keys_equal(
            &holding.owner,
            &maker.key,
        ) {
            return Err(ProgramError::InvalidAccountData);
        }
    }
    let vault_amount = custody.amount;
    let amount_to_raise = fundraiser_state.amount_to_raise();
    let time_started = fundraiser_state.time_started();
    let duration = fundraiser_state.duration();
    let bump = fundraiser_state.bump();

    if vault_amount < amount_to_raise {
        return Err(to_program_error(FundRaiserError::InsufficientFundRaised));
    }
    let now = match sysvars.unix_timestamp {
        Ok(now) => i64_to_unsigned(now),
        Err(error) => {
            return Err(error);
        },
    };
    if !is_window_elapsed(time_started, duration, now) {
        return Err(to_program_error(FundRaiserError::InsufficientFundRaised));
    }
    Ok(
        CheckOutcome {
            create_maker_ata,
            amount: vault_amount,
            transfer_signer: FundraiserSigner::new(maker.key, bump),
            close_signer: FundraiserSigner::new(maker.key, bump),
            lamports: fundraiser.lamports,
            fundraiser: FundRaiser::default(),
        },
    )
}

/// Finalize: searches for the campaign record's address and decides on what
/// the search found.
pub fn process_check_contribution(accounts: &[Account], sysvars: &Sysvars) -> (result: Result<
    CheckOutcome,
    ProgramError,
>)
    ensures
        exists|found: Option<ProgramAddress>|
            check_contribution_post(accounts@, *sysvars, found, result),
        accounts@.len() < 8 ==> result == Err::<CheckOutcome, ProgramError>(
            ProgramError::NotEnoughAccountKeys,
        ),
        result is Ok ==> sweep_allowed(
            accounts@[3].token->Ok_0.amount as nat,
            FundRaiser::view_of(accounts@[2].data@).amount_to_raise,
            FundRaiser::view_of(accounts@[2].data@).time_started,
            FundRaiser::view_of(accounts@[2].data@).duration as nat,
            unsigned_bits(sysvars.unix_timestamp->Ok_0),
        ),
        result is Ok ==> result->Ok_0.amount == accounts@[3].token->Ok_0.amount
            && result->Ok_0.lamports == accounts@[2].lamports
            && result->Ok_0.fundraiser.zeroed(),
{
    if accounts.len() < 8 {
        let result = Err(ProgramError::NotEnoughAccountKeys);
        assert(check_contribution_post(accounts@, *sysvars, None, result));
        return result;
    }
    let found = find_fundraiser_address(&accounts[0].key);
    let result = check_contribution(accounts, sysvars, found);
    assert(check_contribution_post(accounts@, *sysvars, found, result));
    result
}

/// The last transfer of Finalize: moves the campaign record's whole storage
/// deposit to the owner. Takes the owner's balance as it stands once custody
/// has been closed, and the record's deposit that the outcome orders to be
/// moved; gives both balances back as they are to be stored, the owner's
/// first.
pub fn sweep_lamports(owner_balance: u64, record_balance: u64) -> (result: Result<
    (u64, u64),
    ProgramError,
>)
    ensures
        owner_balance + record_balance <= u64::MAX ==> result == Ok::<(u64, u64), ProgramError>(
            ((owner_balance + record_balance) as u64, 0u64),
        ),
        owner_balance + record_balance > u64::MAX ==> result == Err::<(u64, u64), ProgramError>(
            ProgramError::ArithmeticOverflow,
        ),
{
    if owner_balance > u64::MAX - record_balance {
        return Err(ProgramError::ArithmeticOverflow);
    }
    Ok((owner_balance + record_balance, 0))
}

} // verus!
