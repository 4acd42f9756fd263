//! Refund: a contributor takes a deposit back from a campaign that missed
//! its target.
use crate::account::{Account, Sysvars};
use crate::address::{
    find_contributor_address, fundraiser_address, fundraiser_address_of, FundraiserSigner,
    ProgramAddress,
};
use crate::bytes::{i64_to_unsigned, keys_equal, unsigned_bits};
use crate::error::{error_code, to_program_error, FundRaiserError, ProgramError};
use crate::rules::{is_window_elapsed, refund_allowed, window_elapsed};
use crate::state::{Contributor, FundRaiser, FundRaiserView};
use vstd::prelude::*;

verus! {

/// What a successful Refund orders, in this order: move the contributor's
/// whole recorded deposit from custody back into the contributor's holding,
/// on the campaign's authority; store both records. The contribution record
/// then says that nothing is deposited, so that a deposit is given back once.
#[derive(Debug, PartialEq, Eq)]
pub struct RefundOutcome {
    /// The amount to move out of custody.
    pub amount: u64,
    /// The authority for the transfer.
    pub signer: FundraiserSigner,
    /// The campaign record to store.
    pub fundraiser: FundRaiser,
    /// The contribution record to store.
    pub contributor: Contributor,
}

/// The failure, if any, with which Refund refuses an invocation. The checks
/// are made in this order and the first that fails decides.
pub open spec fn refund_error(
    accounts: Seq<Account>,
    sysvars: Sysvars,
    found: Option<ProgramAddress>,
) -> Option<ProgramError> {
    let campaign = FundRaiser::view_of(accounts[3].data@);
    if accounts.len() < 9 {
        Some(ProgramError::NotEnoughAccountKeys)
    } else if !accounts[0].is_signer {
        Some(ProgramError::MissingRequiredSignature)
    } else if accounts[3].missing() {
        Some(ProgramError::InvalidAccountData)
    } else if accounts[3].data@.len() != FundRaiser::LEN {
        Some(ProgramError::InvalidAccountData)
    } else if accounts[3].key@ != fundraiser_address_of(accounts[1].key@, campaign.bump) {
        Some(ProgramError::InvalidAccountData)
    } else if accounts[2].key@ != campaign.mint_to_raise {
        Some(ProgramError::InvalidAccountData)
    } else if accounts[4].missing() {
        Some(ProgramError::InvalidAccountData)
    } else if found is None || found->Some_0.address@ != accounts[4].key@ {
        Some(ProgramError::InvalidAccountData)
    } else if accounts[5].token is Err {
        Some(accounts[5].token->Err_0)
    } else if accounts[5].token->Ok_0.mint@ != campaign.mint_to_raise
        || accounts[5].token->Ok_0.owner@ != accounts[0].key@ {
        Some(ProgramError::InvalidAccountData)
    } else if accounts[6].token is Err {
        Some(accounts[6].token->Err_0)
    } else if accounts[6].token->Ok_0.mint@ != campaign.mint_to_raise
        || accounts[6].token->Ok_0.owner@ != accounts[3].key@ {
        Some(ProgramError::InvalidAccountData)
    } else if sysvars.unix_timestamp is Err {
        Some(sysvars.unix_timestamp->Err_0)
    } else if !window_elapsed(
        campaign.time_started,
        campaign.duration as nat,
        unsigned_bits(sysvars.unix_timestamp->Ok_0),
    ) {
        Some(ProgramError::Custom(error_code(FundRaiserError::DurationNotReached)))
    } else if accounts[6].token->Ok_0.amount >= campaign.amount_to_raise {
        Some(ProgramError::Custom(error_code(FundRaiserError::TargetMet)))
    } else if accounts[4].data@.len() != Contributor::LEN {
        Some(ProgramError::InvalidAccountData)
    } else if Contributor::view_of(accounts[4].data@).amount > campaign.current_amount {
        Some(ProgramError::ArithmeticOverflow)
    } else {
        None
    }
}

/// What Refund answers: the failure that `refund_error` names, or else the
/// orders that give the contributor's recorded deposit back and take it off
/// the campaign's total.
pub open spec fn refund_post(
    accounts: Seq<Account>,
    sysvars: Sysvars,
    found: Option<ProgramAddress>,
    result: Result<RefundOutcome, ProgramError>,
) -> bool {
    let campaign = FundRaiser::view_of(accounts[3].data@);
    let deposited = Contributor::view_of(accounts[4].data@).amount;
    match result {
        Ok(outcome) => {
            &&& refund_error(accounts, sysvars, found) is None
            &&& outcome.amount == deposited
            &&& outcome.signer.maker_of() == accounts[1].key@
            &&& outcome.signer.bump_of() == campaign.bump
            &&& outcome.fundraiser@ == (FundRaiserView {
                current_amount: (campaign.current_amount - deposited) as nat,
                ..campaign
            })
            &&& outcome.contributor@.amount == 0
        },
        Err(error) => refund_error(accounts, sysvars, found) == Some(error),
    }
}

/// Refund, given what the search for the contribution record's address
/// found.
///
/// Accounts, by position: the contributor, the owner, the asset type, the
/// campaign record, the contribution record, the contributor's holding, the
/// custody account, then the two programs that the orders involve.
pub fn refund(accounts: &[Account], sysvars: &Sysvars, found: Option<ProgramAddress>) -> (result:
    Result<RefundOutcome, ProgramError>)
    ensures
        refund_post(accounts@, *sysvars, found, result),
        result is Ok ==> refund_allowed(
            accounts@[6].token->Ok_0.amount as nat,
            FundRaiser::view_of(accounts@[3].data@).amount_to_raise,
            FundRaiser::view_of(accounts@[3].data@).time_started,
            FundRaiser::view_of(accounts@[3].data@).duration as nat,
            unsigned_bits(sysvars.unix_timestamp->Ok_0),
        ),
        result is Ok ==> result->Ok_0.fundraiser@.current_amount + result->Ok_0.amount
            == FundRaiser::view_of(accounts@[3].data@).current_amount,
{
    if accounts.len() < 9 {
        return Err(ProgramError::NotEnoughAccountKeys);
    }
    let contributor = &accounts[0];
    let maker = &accounts[1];
    let mint_to_raise = &accounts[2];
    let fundraiser = &accounts[3];
    let contributor_account = &accounts[4];
    let contributor_ata = &accounts[5];
    let vault = &accounts[6];

    if !contributor.is_signer {
        return Err(ProgramError::MissingRequiredSignature);
    }
    if fundraiser.is_missing() {
        return Err(ProgramError::InvalidAccountData);
    }
    let mut fundraiser_state = match FundRaiser::from_mut_account_info(fundraiser) {
        Ok(state) => state,
        Err(error) => {
            return Err(error);
        },
    };
    let bump = fundraiser_state.bump();
    let fundraiser_pda = fundraiser_address(&maker.key, bump);
    if !keys_equal(&fundraiser_pda, &fundraiser.key) {
        return Err(ProgramError::InvalidAccountData);
    }
    let fundraiser_mint_to_raise = fundraiser_state.mint_to_raise();
    if !keys_equal(&mint_to_raise.key, &fundraiser_mint_to_raise) {
        return Err(ProgramError::InvalidAccountData);
    }
    if contributor_account.is_missing() {
        return Err(ProgramError::InvalidAccountData);
    }
    match found {
        Some(derived) => {
            if !keys_equal(&derived.address, &contributor_account.key) {
                return Err(ProgramError::InvalidAccountData);
            }
        },
        None => {
            return Err(ProgramError::InvalidAccountData);
        },
    }
    let contributor_holding = match contributor_ata.token {
        Ok(holding) => holding,
        Err(error) => {
            return Err(error);
        },
    };
    if !keys_equal(&contributor_holding.mint, &fundraiser_mint_to_raise) || !keys_equal(
        &contributor_holding.owner,
        &contributor.key,
    ) {
        return Err(ProgramError::InvalidAccountData);
    }
    let custody = match vault.token {
        Ok(holding) => holding,
        Err(error) => {
            return Err(error);
        },
    };
    if !keys_equal(&custody.mint, &fundraiser_mint_to_raise) || !keys_equal(
        &custody.owner,
        &fundraiser.key,
    ) {
        return Err(ProgramError::InvalidAccountData);
    }
    let now = match sysvars.unix_timestamp {
        Ok(now) => i64_to_unsigned(now),
        Err(error) => {
            return Err(error);
        },
    };
    if !is_window_elapsed(fundraiser_state.time_started(), fundraiser_state.duration(), now) {
        return Err(to_program_error(FundRaiserError::DurationNotReached));
    }
    if custody.amount >= fundraiser_state.amount_to_raise() {
        return Err(to_program_error(FundRaiserError::TargetMet));
    }
    let mut contributor_state = match Contributor::from_account_info(contributor_account) {
        Ok(state) => state,
        Err(error) => {
            return Err(error);
        },
    };
    let amount = contributor_state.amount();
    if amount > fundraiser_state.current_amount() {
        return Err(ProgramError::ArithmeticOverflow);
    }
    fundraiser_state.subtract_current_amount(amount);
    contributor_state.set_amount(0);
    Ok(
        RefundOutcome {
            amount,
            signer: FundraiserSigner::new(maker.key, bump),
            fundraiser: fundraiser_state,
            contributor: contributor_state,
        },
    )
}

/// Refund: searches for the contribution record's address and decides on
/// what the search found.
pub fn process_refund(accounts: &[Account], sysvars: &Sysvars) -> (result: Result<
    RefundOutcome,
    ProgramError,
>)
    ensures
        exists|found: Option<ProgramAddress>| refund_post(accounts@, *sysvars, found, result),
        accounts@.len() < 9 ==> result == Err::<RefundOutcome, ProgramError>(
            ProgramError::NotEnoughAccountKeys,
        ),
        result is Ok ==> refund_allowed(
            accounts@[6].token->Ok_0.amount as nat,
            FundRaiser::view_of(accounts@[3].data@).amount_to_raise,
            FundRaiser::view_of(accounts@[3].data@).time_started,
            FundRaiser::view_of(accounts@[3].data@).duration as nat,
            unsigned_bits(sysvars.unix_timestamp->Ok_0),
        ),
        result is Ok ==> result->Ok_0.amount == Contributor::view_of(accounts@[4].data@).amount
            && result->Ok_0.fundraiser@.current_amount + result->Ok_0.amount
            == FundRaiser::view_of(accounts@[3].data@).current_amount,
{
    if accounts.len() < 9 {
        let result = Err(ProgramError::NotEnoughAccountKeys);
        assert(refund_post(accounts@, *sysvars, None, result));
        return result;
    }
    let found = find_contributor_address(&accounts[3].key, &accounts[0].key);
    let result = refund(accounts, sysvars, found);
    assert(refund_post(accounts@, *sysvars, found, result));
    result
}

} // verus!
