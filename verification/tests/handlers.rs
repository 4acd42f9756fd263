//! Each handler on single invocations: every failure with an input that
//! gives it, and the order in which failures are reported.
use pinocchio_fundraising::account::{Account, Mint, Sysvars, TokenAccount};
use pinocchio_fundraising::address::{fundraiser_address, ProgramAddress};
use pinocchio_fundraising::error::ProgramError;
use pinocchio_fundraising::instructions::check_contribution::{check_contribution, sweep_lamports};
use pinocchio_fundraising::instructions::contribute::contribute;
use pinocchio_fundraising::instructions::intialize::initialize;
use pinocchio_fundraising::instructions::CreateHolding;
use pinocchio_fundraising::instructions::refund::refund;
use pinocchio_fundraising::state::{Contributor, FundRaiser};

type Key = [u8; 32];

const MAKER: Key = [1; 32];
const CONTRIBUTOR: Key = [2; 32];
const MINT: Key = [3; 32];
const VAULT: Key = [4; 32];
const CONTRIBUTOR_ATA: Key = [5; 32];
const MAKER_ATA: Key = [6; 32];
const CONTRIBUTOR_ACCOUNT: Key = [7; 32];
const STARTED: i64 = 1_700_000_000;

fn plain(key: Key, is_signer: bool, lamports: u64, data: Vec<u8>) -> Account {
    Account {
        key,
        is_signer,
        lamports,
        data,
        token: Err(ProgramError::InvalidAccountData),
        mint: Err(ProgramError::InvalidAccountOwner),
    }
}

fn holding(key: Key, mint: Key, owner: Key, amount: u64) -> Account {
    Account { token: Ok(TokenAccount { mint, owner, amount }), ..plain(key, false, 2_039_280, vec![0; 165]) }
}

fn asset(decimals: u8) -> Account {
    Account {
        mint: Ok(Mint { decimals, is_initialized: true }),
        ..plain(MINT, false, 1_461_600, vec![0; 82])
    }
}

fn program(tag: u8) -> Account {
    plain([tag; 32], false, 1, vec![1])
}

fn sysvars(now: i64) -> Sysvars {
    Sysvars { unix_timestamp: Ok(now), fundraiser_rent: Ok(1_517_280), contributor_rent: Ok(1_336_320) }
}

fn campaign_address() -> ProgramAddress {
    ProgramAddress { address: fundraiser_address(&MAKER, 250), bump: 250 }
}

fn record_address() -> ProgramAddress {
    ProgramAddress { address: CONTRIBUTOR_ACCOUNT, bump: 249 }
}

fn campaign_record(target: u64, raised: u64, duration: u8) -> FundRaiser {
    let mut record = FundRaiser::default();
    record.set_maker(&MAKER);
    record.set_mint_to_raise(&MINT);
    record.set_amount_to_raise(target);
    record.set_current_amount(raised);
    record.set_time_started(STARTED);
    record.set_duration(duration);
    record.set_bump(250);
    record
}

fn campaign(record: &FundRaiser) -> Account {
    plain(campaign_address().address, false, 1_517_280, record.to_bytes().to_vec())
}

fn contribution(amount: u64) -> Account {
    let mut data = vec![0u8; 64];
    data[..8].copy_from_slice(&amount.to_le_bytes());
    plain(CONTRIBUTOR_ACCOUNT, false, 1_336_320, data)
}

fn create_accounts() -> Vec<Account> {
    vec![
        plain(MAKER, true, 10_000_000_000, vec![]),
        asset(6),
        plain(campaign_address().address, false, 0, vec![]),
        plain(VAULT, false, 0, vec![]),
        program(100),
        program(101),
        program(102),
    ]
}

fn create_payload(amount: u64, duration: u8) -> Vec<u8> {
    [amount.to_le_bytes().to_vec(), vec![duration]].concat()
}

fn contribute_accounts(target: u64, raised: u64, so_far: Option<u64>) -> Vec<Account> {
    vec![
        plain(CONTRIBUTOR, true, 10_000_000_000, vec![]),
        asset(6),
        campaign(&campaign_record(target, raised, 10)),
        match so_far {
            Some(amount) => contribution(amount),
            None => plain(CONTRIBUTOR_ACCOUNT, false, 0, vec![]),
        },
        holding(CONTRIBUTOR_ATA, MINT, CONTRIBUTOR, 100_000_000),
        holding(VAULT, MINT, campaign_address().address, raised),
        program(101),
        program(100),
    ]
}

fn check_accounts(target: u64, custody: u64) -> Vec<Account> {
    vec![
        plain(MAKER, true, 10_000_000_000, vec![]),
        asset(6),
        campaign(&campaign_record(target, custody, 10)),
        holding(VAULT, MINT, campaign_address().address, custody),
        plain(MAKER_ATA, false, 0, vec![]),
        program(101),
        program(100),
        program(102),
    ]
}

fn refund_accounts(target: u64, custody: u64, deposited: u64) -> Vec<Account> {
    vec![
        plain(CONTRIBUTOR, true, 10_000_000_000, vec![]),
        plain(MAKER, false, 10_000_000_000, vec![]),
        asset(6),
        campaign(&campaign_record(target, custody, 10)),
        contribution(deposited),
        holding(CONTRIBUTOR_ATA, MINT, CONTRIBUTOR, 0),
        holding(VAULT, MINT, campaign_address().address, custody),
        program(101),
        program(100),
    ]
}

#[test]
fn create_orders_a_fresh_campaign() {
    let outcome = initialize(
        &create_accounts(),
        &create_payload(10_000_000, 7),
        &sysvars(STARTED),
        Some(campaign_address()),
    )
    .unwrap();
    assert_eq!(outcome.lamports, 1_517_280);
    assert_eq!(outcome.space, 90);
    assert_eq!(outcome.signer.maker(), MAKER);
    assert_eq!(outcome.signer.bump(), 250);
    assert_eq!(outcome.vault, CreateHolding { wallet: campaign_address().address, mint: MINT });
    let mut expected = campaign_record(10_000_000, 0, 7);
    assert_eq!(outcome.fundraiser, expected);
    expected.set_current_amount(1);
    assert_ne!(outcome.fundraiser, expected);
}

#[test]
fn create_ignores_payload_bytes_after_the_fields() {
    let mut payload = create_payload(10_000_000, 7);
    payload.push(9);
    let outcome =
        initialize(&create_accounts(), &payload, &sysvars(STARTED), Some(campaign_address()))
            .unwrap();
    assert_eq!(outcome.fundraiser, campaign_record(10_000_000, 0, 7));
}

#[test]
fn create_stores_a_timestamp_before_the_epoch_by_its_bytes() {
    let outcome = initialize(
        &create_accounts(),
        &create_payload(10_000_000, 7),
        &sysvars(-1),
        Some(campaign_address()),
    )
    .unwrap();
    assert_eq!(outcome.fundraiser.time_started, [255; 8]);
    assert_eq!(outcome.fundraiser.time_started(), u64::MAX);
}

#[test]
fn create_failures() {
    let found = Some(campaign_address());
    let payload = create_payload(10_000_000, 1);
    let run = |accounts: &[Account], data: &[u8], sysvars: &Sysvars, found| {
        initialize(accounts, data, sysvars, found).unwrap_err()
    };

    let accounts = create_accounts();
    assert_eq!(
        run(&accounts[..6], &payload, &sysvars(STARTED), found),
        ProgramError::NotEnoughAccountKeys
    );
    assert_eq!(
        run(&accounts, &payload[..8], &sysvars(STARTED), found),
        ProgramError::InvalidInstructionData
    );
    assert_eq!(
        run(&accounts, &create_payload(2, 1), &sysvars(STARTED), found),
        ProgramError::InvalidArgument
    );
    assert_eq!(
        run(&accounts, &create_payload(10_000_000, 0), &sysvars(STARTED), found),
        ProgramError::InvalidArgument
    );

    let mut accounts = create_accounts();
    accounts[0].is_signer = false;
    assert_eq!(
        run(&accounts, &payload, &sysvars(STARTED), found),
        ProgramError::MissingRequiredSignature
    );

    let mut accounts = create_accounts();
    accounts[1].mint = Err(ProgramError::InvalidAccountOwner);
    assert_eq!(
        run(&accounts, &payload, &sysvars(STARTED), found),
        ProgramError::InvalidAccountOwner
    );
    accounts[1].mint = Ok(Mint { decimals: 6, is_initialized: false });
    assert_eq!(
        run(&accounts, &payload, &sysvars(STARTED), found),
        ProgramError::UninitializedAccount
    );

    let mut accounts = create_accounts();
    accounts[3].lamports = 1;
    assert_eq!(
        run(&accounts, &payload, &sysvars(STARTED), found),
        ProgramError::AccountAlreadyInitialized
    );
    let mut accounts = create_accounts();
    accounts[2].data = vec![0];
    assert_eq!(
        run(&accounts, &payload, &sysvars(STARTED), found),
        ProgramError::AccountAlreadyInitialized
    );

    let accounts = create_accounts();
    assert_eq!(run(&accounts, &payload, &sysvars(STARTED), None), ProgramError::InvalidArgument);
    let elsewhere = ProgramAddress { address: [9; 32], bump: 250 };
    assert_eq!(
        run(&accounts, &payload, &sysvars(STARTED), Some(elsewhere)),
        ProgramError::InvalidArgument
    );

    let mut oracles = sysvars(STARTED);
    oracles.fundraiser_rent = Err(ProgramError::UnsupportedSysvar);
    oracles.unix_timestamp = Err(ProgramError::InvalidArgument);
    assert_eq!(run(&accounts, &payload, &oracles, found), ProgramError::UnsupportedSysvar);
    oracles.fundraiser_rent = Ok(1);
    assert_eq!(run(&accounts, &payload, &oracles, found), ProgramError::InvalidArgument);
}

#[test]
fn create_accepts_the_least_target() {
    assert_eq!(FundRaiser::MIN_AMOUNT_TO_RAISE, 3);
    let outcome = initialize(
        &create_accounts(),
        &create_payload(3, 1),
        &sysvars(STARTED),
        Some(campaign_address()),
    )
    .unwrap();
    assert_eq!(outcome.fundraiser.amount_to_raise(), 3);
}

#[test]
fn contribute_orders_a_first_deposit() {
    let outcome = contribute(
        &contribute_accounts(50_000_000, 4_000_000, None),
        &2_000_000u64.to_le_bytes(),
        &sysvars(STARTED + 10),
        Some(record_address()),
    )
    .unwrap();
    let create = outcome.create_contributor.unwrap();
    assert_eq!(create.lamports, 1_336_320);
    assert_eq!(create.space, 64);
    assert_eq!(create.signer.fundraiser(), campaign_address().address);
    assert_eq!(create.signer.contributor(), CONTRIBUTOR);
    assert_eq!(create.signer.bump(), 249);
    assert_eq!(outcome.amount, 2_000_000);
    assert_eq!(outcome.fundraiser, campaign_record(50_000_000, 6_000_000, 10));
    assert_eq!(outcome.contributor.amount(), 2_000_000);
}

#[test]
fn contribute_orders_a_later_deposit() {
    let outcome = contribute(
        &contribute_accounts(50_000_000, 4_000_000, Some(3_000_000)),
        &2_000_000u64.to_le_bytes(),
        &sysvars(STARTED),
        Some(record_address()),
    )
    .unwrap();
    assert!(outcome.create_contributor.is_none());
    assert_eq!(outcome.amount, 2_000_000);
    assert_eq!(outcome.fundraiser, campaign_record(50_000_000, 6_000_000, 10));
    assert_eq!(outcome.contributor.amount(), 5_000_000);
}

#[test]
fn contribute_is_taken_before_the_recorded_start() {
    let outcome = contribute(
        &contribute_accounts(50_000_000, 0, None),
        &2_000_000u64.to_le_bytes(),
        &sysvars(STARTED - 5),
        Some(record_address()),
    );
    assert!(outcome.is_ok());
}

#[test]
fn contribute_failures() {
    let found = Some(record_address());
    let amount = 2_000_000u64.to_le_bytes();
    let now = sysvars(STARTED + 1);
    let run = |accounts: &[Account], data: &[u8], sysvars: &Sysvars, found| {
        contribute(accounts, data, sysvars, found).unwrap_err()
    };
    let valid = || contribute_accounts(50_000_000, 4_000_000, Some(1_000_000));

    assert_eq!(run(&valid()[..7], &amount, &now, found), ProgramError::NotEnoughAccountKeys);
    assert_eq!(run(&valid(), &amount[..7], &now, found), ProgramError::InvalidInstructionData);

    let mut accounts = valid();
    accounts[0].is_signer = false;
    assert_eq!(run(&accounts, &amount, &now, found), ProgramError::MissingRequiredSignature);

    let mut accounts = valid();
    accounts[2].lamports = 0;
    assert_eq!(run(&accounts, &amount, &now, found), ProgramError::InvalidAccountData);
    let mut accounts = valid();
    accounts[2].data = vec![];
    assert_eq!(run(&accounts, &amount, &now, found), ProgramError::InvalidAccountData);
    let mut accounts = valid();
    accounts[2].data.push(0);
    assert_eq!(run(&accounts, &amount, &now, found), ProgramError::InvalidAccountData);

    // Another asset type than the campaign's.
    let mut accounts = valid();
    accounts[1].key = [33; 32];
    assert_eq!(run(&accounts, &amount, &now, found), ProgramError::InvalidInstructionData);

    // Above the cap of 5,000,000.
    assert_eq!(
        run(&valid(), &5_000_001u64.to_le_bytes(), &now, found),
        ProgramError::InvalidInstructionData
    );

    let mut oracles = now;
    oracles.unix_timestamp = Err(ProgramError::UnsupportedSysvar);
    assert_eq!(run(&valid(), &amount, &oracles, found), ProgramError::UnsupportedSysvar);
    assert_eq!(
        run(&valid(), &amount, &sysvars(STARTED + 11), found),
        ProgramError::InvalidInstructionData
    );

    // A campaign record at another address than its owner's seeds give.
    let mut accounts = valid();
    accounts[2].key = [34; 32];
    assert_eq!(run(&accounts, &amount, &now, found), ProgramError::InvalidInstructionData);
    let mut record = campaign_record(50_000_000, 0, 10);
    record.set_bump(251);
    let mut accounts = valid();
    accounts[2].data = record.to_bytes().to_vec();
    assert_eq!(run(&accounts, &amount, &now, found), ProgramError::InvalidInstructionData);

    assert_eq!(run(&valid(), &amount, &now, None), ProgramError::InvalidInstructionData);
    let elsewhere = Some(ProgramAddress { address: [9; 32], bump: 249 });
    assert_eq!(run(&valid(), &amount, &now, elsewhere), ProgramError::InvalidInstructionData);

    let mut accounts = valid();
    accounts[4].token = Err(ProgramError::AccountBorrowFailed);
    assert_eq!(run(&accounts, &amount, &now, found), ProgramError::AccountBorrowFailed);
    accounts[4] = holding(CONTRIBUTOR_ATA, [33; 32], CONTRIBUTOR, 100_000_000);
    assert_eq!(run(&accounts, &amount, &now, found), ProgramError::InvalidInstructionData);
    accounts[4] = holding(CONTRIBUTOR_ATA, MINT, MAKER, 100_000_000);
    assert_eq!(run(&accounts, &amount, &now, found), ProgramError::InvalidInstructionData);

    let mut accounts = valid();
    accounts[5].token = Err(ProgramError::InvalidAccountData);
    assert_eq!(run(&accounts, &amount, &now, found), ProgramError::InvalidAccountData);
    accounts[5] = holding(VAULT, [33; 32], campaign_address().address, 0);
    assert_eq!(run(&accounts, &amount, &now, found), ProgramError::InvalidInstructionData);
    accounts[5] = holding(VAULT, MINT, MAKER, 0);
    assert_eq!(run(&accounts, &amount, &now, found), ProgramError::InvalidInstructionData);

    let mut accounts = valid();
    accounts[1].mint = Err(ProgramError::InvalidAccountOwner);
    assert_eq!(run(&accounts, &amount, &now, found), ProgramError::InvalidAccountOwner);
    accounts[1].mint = Ok(Mint { decimals: 7, is_initialized: true });
    assert_eq!(run(&accounts, &amount, &now, found), ProgramError::InvalidInstructionData);
    accounts[1].mint = Ok(Mint { decimals: 20, is_initialized: true });
    assert_eq!(run(&accounts, &amount, &now, found), ProgramError::InvalidInstructionData);

    let mut oracles = now;
    oracles.contributor_rent = Err(ProgramError::UnsupportedSysvar);
    assert_eq!(
        run(&contribute_accounts(50_000_000, 0, None), &amount, &oracles, found),
        ProgramError::UnsupportedSysvar
    );
    assert!(contribute(&valid(), &amount, &oracles, found).is_ok());

    let mut accounts = valid();
    accounts[3].data.truncate(63);
    assert_eq!(run(&accounts, &amount, &now, found), ProgramError::InvalidAccountData);

    // 1,000,000 deposited before: 4,000,000 more is the most.
    assert!(contribute(&valid(), &4_000_000u64.to_le_bytes(), &now, found).is_ok());
    assert_eq!(
        run(&valid(), &4_000_001u64.to_le_bytes(), &now, found),
        ProgramError::InvalidInstructionData
    );
    let accounts = contribute_accounts(50_000_000, 0, Some(u64::MAX));
    assert_eq!(run(&accounts, &amount, &now, found), ProgramError::InvalidInstructionData);

    let accounts = contribute_accounts(50_000_000, u64::MAX - 1_999_999, None);
    assert_eq!(run(&accounts, &amount, &now, found), ProgramError::ArithmeticOverflow);
    let accounts = contribute_accounts(50_000_000, u64::MAX - 2_000_000, None);
    assert_eq!(
        contribute(&accounts, &amount, &now, found).unwrap().fundraiser.current_amount(),
        u64::MAX
    );
}

#[test]
fn contribute_reports_the_first_failure() {
    // Too few accounts and a short payload and no signature.
    let mut accounts = contribute_accounts(50_000_000, 0, None);
    accounts[0].is_signer = false;
    assert_eq!(
        contribute(&accounts[..2], &[], &sysvars(STARTED), None).unwrap_err(),
        ProgramError::NotEnoughAccountKeys
    );
    assert_eq!(
        contribute(&accounts, &[], &sysvars(STARTED), None).unwrap_err(),
        ProgramError::InvalidInstructionData
    );
    // No signature and a missing campaign.
    accounts[2].lamports = 0;
    assert_eq!(
        contribute(&accounts, &[0; 8], &sysvars(STARTED), None).unwrap_err(),
        ProgramError::MissingRequiredSignature
    );
}

#[test]
fn finalize_orders_the_sweep() {
    let outcome = check_contribution(
        &check_accounts(10_000_000, 10_000_001),
        &sysvars(STARTED + 10),
        Some(campaign_address()),
    )
    .unwrap();
    assert_eq!(outcome.create_maker_ata, Some(CreateHolding { wallet: MAKER, mint: MINT }));
    assert_eq!(outcome.amount, 10_000_001);
    assert_eq!(outcome.lamports, 1_517_280);
    assert_eq!(outcome.transfer_signer.maker(), MAKER);
    assert_eq!(outcome.transfer_signer.bump(), 250);
    assert_eq!(outcome.close_signer.maker(), MAKER);
    assert_eq!(outcome.close_signer.bump(), 250);
    assert_eq!(outcome.fundraiser.to_bytes(), [0u8; 90]);
}

#[test]
fn finalize_uses_the_holding_that_the_owner_has() {
    let mut accounts = check_accounts(10_000_000, 10_000_000);
    accounts[4] = holding(MAKER_ATA, MINT, MAKER, 5);
    let outcome =
        check_contribution(&accounts, &sysvars(STARTED + 11), Some(campaign_address())).unwrap();
    assert_eq!(outcome.create_maker_ata, None);
    assert_eq!(outcome.amount, 10_000_000);
    assert_eq!(outcome.lamports, 1_517_280);
}

#[test]
fn finalize_failures() {
    let found = Some(campaign_address());
    let now = sysvars(STARTED + 10);
    let run = |accounts: &[Account], sysvars: &Sysvars, found| {
        check_contribution(accounts, sysvars, found).unwrap_err()
    };
    let valid = || check_accounts(10_000_000, 10_000_000);

    assert_eq!(run(&valid()[..7], &now, found), ProgramError::NotEnoughAccountKeys);

    let mut accounts = valid();
    accounts[0].is_signer = false;
    assert_eq!(run(&accounts, &now, found), ProgramError::MissingRequiredSignature);

    let mut accounts = valid();
    accounts[2].lamports = 0;
    assert_eq!(run(&accounts, &now, found), ProgramError::InvalidAccountData);
    let mut accounts = valid();
    accounts[2].data.truncate(82);
    assert_eq!(run(&accounts, &now, found), ProgramError::InvalidAccountData);

    let mut accounts = valid();
    accounts[1].key = [33; 32];
    assert_eq!(run(&accounts, &now, found), ProgramError::InvalidAccountData);

    assert_eq!(run(&valid(), &now, None), ProgramError::InvalidAccountData);
    let elsewhere = Some(ProgramAddress { address: [9; 32], bump: 250 });
    assert_eq!(run(&valid(), &now, elsewhere), ProgramError::InvalidAccountData);

    let mut accounts = valid();
    accounts[3].token = Err(ProgramError::AccountBorrowFailed);
    assert_eq!(run(&accounts, &now, found), ProgramError::AccountBorrowFailed);
    accounts[3] = holding(VAULT, [33; 32], campaign_address().address, 10_000_000);
    assert_eq!(run(&accounts, &now, found), ProgramError::InvalidAccountData);
    accounts[3] = holding(VAULT, MINT, MAKER, 10_000_000);
    assert_eq!(run(&accounts, &now, found), ProgramError::InvalidAccountData);

    let mut accounts = valid();
    accounts[4] = plain(MAKER_ATA, false, 1, vec![]);
    accounts[4].token = Err(ProgramError::InvalidAccountOwner);
    assert_eq!(run(&accounts, &now, found), ProgramError::InvalidAccountOwner);
    accounts[4] = holding(MAKER_ATA, [33; 32], MAKER, 0);
    assert_eq!(run(&accounts, &now, found), ProgramError::InvalidAccountData);
    accounts[4] = holding(MAKER_ATA, MINT, CONTRIBUTOR, 0);
    assert_eq!(run(&accounts, &now, found), ProgramError::InvalidAccountData);

    assert_eq!(
        run(&check_accounts(10_000_000, 9_999_999), &now, found),
        ProgramError::Custom(0x10)
    );
    assert_eq!(run(&valid(), &sysvars(STARTED + 9), found), ProgramError::Custom(0x10));
    assert_eq!(run(&valid(), &sysvars(STARTED - 1), found), ProgramError::Custom(0x10));

    // The clock is asked only once the target is known to be met.
    let mut oracles = now;
    oracles.unix_timestamp = Err(ProgramError::UnsupportedSysvar);
    assert_eq!(run(&valid(), &oracles, found), ProgramError::UnsupportedSysvar);
    assert_eq!(
        run(&check_accounts(10_000_000, 9_999_999), &oracles, found),
        ProgramError::Custom(0x10)
    );
}

#[test]
fn sweep_moves_the_whole_deposit() {
    assert_eq!(sweep_lamports(5_000_000_000, 1_517_280), Ok((5_001_517_280, 0)));
    assert_eq!(sweep_lamports(0, 0), Ok((0, 0)));
    assert_eq!(sweep_lamports(u64::MAX - 7, 7), Ok((u64::MAX, 0)));
    assert_eq!(sweep_lamports(u64::MAX - 7, 8), Err(ProgramError::ArithmeticOverflow));
}

#[test]
fn refund_orders_the_recorded_deposit_back() {
    let outcome = refund(
        &refund_accounts(10_000_000, 3_000_000, 1_000_000),
        &sysvars(STARTED + 10),
        Some(record_address()),
    )
    .unwrap();
    assert_eq!(outcome.amount, 1_000_000);
    assert_eq!(outcome.signer.maker(), MAKER);
    assert_eq!(outcome.signer.bump(), 250);
    assert_eq!(outcome.fundraiser, campaign_record(10_000_000, 2_000_000, 10));
    assert_eq!(outcome.contributor, Contributor { amount: [0; 8] });
}

#[test]
fn refund_failures() {
    let found = Some(record_address());
    let now = sysvars(STARTED + 10);
    let run =
        |accounts: &[Account], sysvars: &Sysvars, found| refund(accounts, sysvars, found).unwrap_err();
    let valid = || refund_accounts(10_000_000, 3_000_000, 1_000_000);

    assert_eq!(run(&valid()[..8], &now, found), ProgramError::NotEnoughAccountKeys);

    let mut accounts = valid();
    accounts[0].is_signer = false;
    assert_eq!(run(&accounts, &now, found), ProgramError::MissingRequiredSignature);

    let mut accounts = valid();
    accounts[3].data = vec![];
    assert_eq!(run(&accounts, &now, found), ProgramError::InvalidAccountData);
    let mut accounts = valid();
    accounts[3].data.push(1);
    assert_eq!(run(&accounts, &now, found), ProgramError::InvalidAccountData);

    // An owner whose seeds do not give the campaign record's address.
    let mut accounts = valid();
    accounts[1].key = CONTRIBUTOR;
    assert_eq!(run(&accounts, &now, found), ProgramError::InvalidAccountData);

    let mut accounts = valid();
    accounts[2].key = [33; 32];
    assert_eq!(run(&accounts, &now, found), ProgramError::InvalidAccountData);

    let mut accounts = valid();
    accounts[4].lamports = 0;
    assert_eq!(run(&accounts, &now, found), ProgramError::InvalidAccountData);

    assert_eq!(run(&valid(), &now, None), ProgramError::InvalidAccountData);
    let elsewhere = Some(ProgramAddress { address: [9; 32], bump: 249 });
    assert_eq!(run(&valid(), &now, elsewhere), ProgramError::InvalidAccountData);

    let mut accounts = valid();
    accounts[5].token = Err(ProgramError::AccountBorrowFailed);
    assert_eq!(run(&accounts, &now, found), ProgramError::AccountBorrowFailed);
    accounts[5] = holding(CONTRIBUTOR_ATA, MINT, MAKER, 0);
    assert_eq!(run(&accounts, &now, found), ProgramError::InvalidAccountData);

    let mut accounts = valid();
    accounts[6].token = Err(ProgramError::InvalidAccountOwner);
    assert_eq!(run(&accounts, &now, found), ProgramError::InvalidAccountOwner);
    accounts[6] = holding(VAULT, [33; 32], campaign_address().address, 3_000_000);
    assert_eq!(run(&accounts, &now, found), ProgramError::InvalidAccountData);

    let mut oracles = now;
    oracles.unix_timestamp = Err(ProgramError::UnsupportedSysvar);
    assert_eq!(run(&valid(), &oracles, found), ProgramError::UnsupportedSysvar);
    assert_eq!(run(&valid(), &sysvars(STARTED + 9), found), ProgramError::Custom(0x11));
    assert_eq!(
        run(&refund_accounts(10_000_000, 10_000_000, 1_000_000), &now, found),
        ProgramError::Custom(0x12)
    );
    // Window still open and target met: the window is reported.
    assert_eq!(
        run(&refund_accounts(10_000_000, 10_000_000, 1_000_000), &sysvars(STARTED), found),
        ProgramError::Custom(0x11)
    );

    let mut accounts = valid();
    accounts[4].data.push(0);
    assert_eq!(run(&accounts, &now, found), ProgramError::InvalidAccountData);

    // More recorded for the contributor than the campaign has raised.
    let mut accounts = valid();
    accounts[3] = campaign(&campaign_record(10_000_000, 999_999, 10));
    assert_eq!(run(&accounts, &now, found), ProgramError::ArithmeticOverflow);
}

#[test]
fn no_campaign_allows_both_a_sweep_and_a_refund() {
    for custody in [0u64, 9_999_999, 10_000_000, 10_000_001] {
        for now in [STARTED - 1, STARTED, STARTED + 9, STARTED + 10, STARTED + 11] {
            let swept = check_contribution(
                &check_accounts(10_000_000, custody),
                &sysvars(now),
                Some(campaign_address()),
            )
            .is_ok();
            let refunded = refund(
                &refund_accounts(10_000_000, custody, 0),
                &sysvars(now),
                Some(record_address()),
            )
            .is_ok();
            assert!(!(swept && refunded));
            assert_eq!(swept || refunded, now >= STARTED + 10);
            assert_eq!(swept, now >= STARTED + 10 && custody >= 10_000_000);
        }
    }
}
