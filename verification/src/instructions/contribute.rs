//! Contribute: deposits into an open campaign.
use crate::account::{Account, Sysvars};
use crate::address::{
    find_contributor_address, fundraiser_address, fundraiser_address_of, ContributorSigner,
    ProgramAddress,
};
use crate::bytes::{i64_to_unsigned, keys_equal, le_u64, read_array, u64_from_le_bytes, unsigned_bits};
use crate::error::ProgramError;
use crate::rules::{
    contribution_cap, is_window_open, max_contribution, one_whole_unit, whole_unit, window_open,
    within_cap,
};
use crate::state::{Contributor, FundRaiser, FundRaiserView};
use vstd::prelude::*;

verus! {

/// The order to allocate a contribution record at its derived address,
/// owned by this program and funded by the contributor.
#[derive(Debug, PartialEq, Eq)]
pub struct CreateContributor {
    /// The storage deposit to fund the record with.
    pub lamports: u64,
    /// The number of bytes to allocate for the record.
    pub space: u64,
    /// The authority under which the record's address is created.
    pub signer: ContributorSigner,
}

/// What a successful Contribute orders, in this order: allocate the
/// contribution record if there is none yet; move the deposit from the
/// contributor's holding into custody, on the contributor's authority; store
/// both records.
#[derive(Debug, PartialEq, Eq)]
pub struct ContributeOutcome {
    /// The allocation of the contribution record, where one is needed.
    pub create_contributor: Option<CreateContributor>,
    /// The amount to move into custody.
    pub amount: u64,
    /// The campaign record to store.
    pub fundraiser: FundRaiser,
    /// The contribution record to store.
    pub contributor: Contributor,
}

/// What the contributor has deposited before this invocation: what the
/// contribution record says, or nothing where there is no record yet.
pub open spec fn deposited_so_far(record: Account) -> nat {
    if record.vacant() {
        0
    } else {
        Contributor::view_of(record.data@).amount
    }
}

/// The failure, if any, with which Contribute refuses an invocation. The
/// checks are made in this order and the first that fails decides.
pub open spec fn contribute_error(
    accounts: Seq<Account>,
    data: Seq<u8>,
    sysvars: Sysvars,
    found: Option<ProgramAddress>,
) -> Option<ProgramError> {
    let amount = le_u64(data.subrange(0, 8));
    let campaign = FundRaiser::view_of(accounts[2].data@);
    if accounts.len() < 8 {
        Some(ProgramError::NotEnoughAccountKeys)
    } else if data.len() < 8 {
        Some(ProgramError::InvalidInstructionData)
    } else if !accounts[0].is_signer {
        Some(ProgramError::MissingRequiredSignature)
    } else if accounts[2].missing() {
        Some(ProgramError::InvalidAccountData)
    } else if accounts[2].data@.len() != FundRaiser::LEN {
        Some(ProgramError::InvalidAccountData)
    } else if accounts[1].key@ != campaign.mint_to_raise {
        Some(ProgramError::InvalidInstructionData)
    } else if amount > contribution_cap(campaign.amount_to_raise) {
        Some(ProgramError::InvalidInstructionData)
    } else if sysvars.unix_timestamp is Err {
        Some(sysvars.unix_timestamp->Err_0)
    } else if !window_open(
        campaign.time_started,
        campaign.duration as nat,
        unsigned_bits(sysvars.unix_timestamp->Ok_0),
    ) {
        Some(ProgramError::InvalidInstructionData)
    } else if accounts[2].key@ != fundraiser_address_of(campaign.maker, campaign.bump) {
        Some(ProgramError::InvalidInstructionData)
    } else if found is None || found->Some_0.address@ != accounts[3].key@ {
        Some(ProgramError::InvalidInstructionData)
    } else if accounts[4].token is Err {
        Some(accounts[4].token->Err_0)
    } else if accounts[4].token->Ok_0.mint@ != campaign.mint_to_raise
        || accounts[4].token->Ok_0.owner@ != accounts[0].key@ {
        Some(ProgramError::InvalidInstructionData)
    } else if accounts[5].token is Err {
        Some(accounts[5].token->Err_0)
    } else if accounts[5].token->Ok_0.mint@ != campaign.mint_to_raise
        || accounts[5].token->Ok_0.owner@ != accounts[2].key@ {
        Some(ProgramError::InvalidInstructionData)
    } else if accounts[1].mint is Err {
        Some(accounts[1].mint->Err_0)
    } else if amount < whole_unit(accounts[1].mint->Ok_0.decimals as nat) {
        Some(ProgramError::InvalidInstructionData)
    } else if accounts[3].vacant() && sysvars.contributor_rent is Err {
        Some(sysvars.contributor_rent->Err_0)
    } else if !accounts[3].vacant() && accounts[3].data@.len() != Contributor::LEN {
        Some(ProgramError::InvalidAccountData)
    } else if deposited_so_far(accounts[3]) + amount > contribution_cap(
        campaign.amount_to_raise,
    ) {
        Some(ProgramError::InvalidInstructionData)
    } else if campaign.current_amount + amount > u64::MAX {
        Some(ProgramError::ArithmeticOverflow)
    } else {
        None
    }
}

/// What Contribute answers: the failure that `contribute_error` names, or
/// else the orders that add the deposit to custody and to both records.
pub open spec fn contribute_post(
    accounts: Seq<Account>,
    data: Seq<u8>,
    sysvars: Sysvars,
    found: Option<ProgramAddress>,
    result: Result<ContributeOutcome, ProgramError>,
) -> bool {
    let amount = le_u64(data.subrange(0, 8));
    let campaign = FundRaiser::view_of(accounts[2].data@);
    match result {
        Ok(outcome) => {
            &&& contribute_error(accounts, data, sysvars, found) is None
            &&& outcome.amount == amount
            &&& outcome.fundraiser@ == (FundRaiserView {
                current_amount: campaign.current_amount + amount,
                ..campaign
            })
            &&& outcome.contributor@.amount == deposited_so_far(accounts[3]) + amount
            &&& outcome.create_contributor is Some <==> accounts[3].vacant()
            &&& outcome.create_contributor matches Some(create) ==> {
                &&& create.lamports == sysvars.contributor_rent->Ok_0
                &&& create.space == Contributor::LEN
                &&& create.signer.fundraiser_of() == accounts[2].key@
                &&& create.signer.contributor_of() == accounts[0].key@
                &&& create.signer.bump_of() == found->Some_0.bump
            }
        },
        Err(error) => contribute_error(accounts, data, sysvars, found) == Some(error),
    }
}

/// Contribute, given what the search for the contribution record's address
/// found.
///
/// Accounts, by position: the contributor, the asset type, the campaign
/// record, the contribution record, the contributor's holding, the custody
/// account, then the two programs that the orders involve. Payload: the
/// amount in eight little-endian bytes.
pub fn contribute(
    accounts: &[Account],
    data: &[u8],
    sysvars: &Sysvars,
    found: Option<ProgramAddress>,
) -> (result: Result<ContributeOutcome, ProgramError>)
    ensures
        contribute_post(accounts@, data@, *sysvars, found, result),
        result is Ok ==> within_cap(
            FundRaiser::view_of(accounts@[2].data@).amount_to_raise,
            deposited_so_far(accounts@[3]),
            le_u64(data@.subrange(0, 8)),
        ),
        result is Ok ==> result->Ok_0.fundraiser@.current_amount == FundRaiser::view_of(
            accounts@[2].data@,
        ).current_amount + result->Ok_0.amount && result->Ok_0.contributor@.amount
            == deposited_so_far(accounts@[3]) + result->Ok_0.amount,
{
    if accounts.len() < 8 {
        return Err(ProgramError::NotEnoughAccountKeys);
    }
    let contributor = &accounts[0];
    let mint_to_raise = &accounts[1];
    let fundraiser = &accounts[2];
    let contributor_account = &accounts[3];
    let contributor_ata = &accounts[4];
    let vault = &accounts[5];

    if data.len() < 8 {
        return Err(ProgramError::InvalidInstructionData);
    }
    let amount_to_contribute = u64_from_le_bytes(&read_array::<8>(data, 0));

    if !contributor.is_signer {
        return Err(ProgramError::MissingRequiredSignature);
    }
    if fundraiser.is_missing() {
        return Err(ProgramError::InvalidAccountData);
    }
    let mut fundraiser_state = match FundRaiser::from_account_info(fundraiser) {
        Ok(state) => state,
        Err(error) => {
            return Err(error);
        },
    };
    let fundraiser_mint_to_raise = fundraiser_state.mint_to_raise();
    if !keys_equal(&mint_to_raise.key, &fundraiser_mint_to_raise) {
        return Err(ProgramError::InvalidInstructionData);
    }
    let cap = max_contribution(fundraiser_state.amount_to_raise());
    if amount_to_contribute > cap {
        return Err(ProgramError::InvalidInstructionData);
    }
    let now = match sysvars.unix_timestamp {
        Ok(now) => i64_to_unsigned(now),
        Err(error) => {
            return Err(error);
        },
    };
    if !is_window_open(fundraiser_state.time_started(), fundraiser_state.duration(), now) {
        return Err(ProgramError::InvalidInstructionData);
    }
    let fundraiser_pda = fundraiser_address(&fundraiser_state.maker(), fundraiser_state.bump());
    if !keys_equal(&fundraiser_pda, &fundraiser.key) {
        return Err(ProgramError::InvalidInstructionData);
    }
    let contributor_bump = match found {
        Some(derived) => {
            if !keys_equal(&derived.address, &contributor_account.key) {
                return Err(ProgramError::InvalidInstructionData);
            }
            derived.bump
        },
        None => {
            return Err(ProgramError::InvalidInstructionData);
        },
    };
    let contributor_holding = match contributor_ata.token {
        Ok(holding) => holding,
        Err(error) => {
            return Err(error);
        },
    };
    if !keys_equal(&contributor_holding.mint, &fundraiser_mint_to_raise) || !keys_equal(
        &contributor_holding.owner,
        &contributor.key,
    ) {
        return Err(ProgramError::InvalidInstructionData);
    }
    let custody = match vault.token {
        Ok(holding) => holding,
        Err(error) => {
            return Err(error);
        },
    };
    if !keys_equal(&custody.mint, &fundraiser_mint_to_raise) || !keys_equal(
        &custody.owner,
        &fundraiser.key,
    ) {
        return Err(ProgramError::InvalidInstructionData);
    }
    let mint = match mint_to_raise.mint {
        Ok(mint) => mint,
        Err(error) => {
            return Err(error);
        },
    };
    match one_whole_unit(mint.decimals) {
        Some(unit) => {
            if amount_to_contribute < unit {
                return Err(ProgramError::InvalidInstructionData);
            }
        },
        None => {
            return Err(ProgramError::InvalidInstructionData);
        },
    }
    let mut create_contributor: Option<CreateContributor> = None;
    let mut contributor_state = Contributor::default();
    if contributor_account.is_vacant() {
        let lamports = match sysvars.contributor_rent {
            Ok(lamports) => lamports,
            Err(error) => {
                return Err(error);
            },
        };
        create_contributor = Some(
            CreateContributor {
                lamports,
                space: Contributor::LEN as u64,
                signer: ContributorSigner::new(fundraiser.key, contributor.key, contributor_bump),
            },
        );
        contributor_state.set_amount(0);
    } else {
        contributor_state = match Contributor::from_account_info(contributor_account) {
            Ok(state) => state,
            Err(error) => {
                return Err(error);
            },
        };
    }
    let so_far = contributor_state.amount();
    if so_far > cap || amount_to_contribute > cap - so_far {
        return Err(ProgramError::InvalidInstructionData);
    }
    if fundraiser_state.current_amount() > u64::MAX - amount_to_contribute {
        return Err(ProgramError::ArithmeticOverflow);
    }
    fundraiser_state.update_current_amount(amount_to_contribute);
    contributor_state.update_amount(amount_to_contribute);
    Ok(
        ContributeOutcome {
            create_contributor,
            amount: amount_to_contribute,
            fundraiser: fundraiser_state,
            contributor: contributor_state,
        },
    )
}

/// Contribute: searches for the contribution record's address and decides
/// on what the search found.
pub fn process_contribute(accounts: &[Account], data: &[u8], sysvars: &Sysvars) -> (result: Result<
    ContributeOutcome,
    ProgramError,
>)
    ensures
        exists|found: Option<ProgramAddress>|
            contribute_post(accounts@, data@, *sysvars, found, result),
        accounts@.len() < 8 ==> result == Err::<ContributeOutcome, ProgramError>(
            ProgramError::NotEnoughAccountKeys,
        ),
        result is Ok ==> within_cap(
            FundRaiser::view_of(accounts@[2].data@).amount_to_raise,
            deposited_so_far(accounts@[3]),
            le_u64(data@.subrange(0, 8)),
        ),
        result is Ok ==> result->Ok_0.fundraiser@.current_amount == FundRaiser::view_of(
            accounts@[2].data@,
        ).current_amount + result->Ok_0.amount && result->Ok_0.contributor@.amount
            == deposited_so_far(accounts@[3]) + result->Ok_0.amount,
{
    if accounts.len() < 8 {
        let result = Err(ProgramError::NotEnoughAccountKeys);
        assert(contribute_post(accounts@, data@, *sysvars, None, result));
        return result;
    }
    let found = find_contributor_address(&accounts[2].key, &accounts[0].key);
    let result = contribute(accounts, data, sysvars, found);
    assert(contribute_post(accounts@, data@, *sysvars, found, result));
    result
}

} // verus!
