//! The two stored records.
use pinocchio_fundraising::account::Account;
use pinocchio_fundraising::error::ProgramError;
use pinocchio_fundraising::state::{Contributor, FundRaiser};

fn stored(data: Vec<u8>) -> Account {
    Account {
        key: [9; 32],
        is_signer: false,
        lamports: 1,
        data,
        token: Err(ProgramError::InvalidAccountData),
        mint: Err(ProgramError::InvalidAccountData),
    }
}

#[test]
fn record_sizes() {
    assert_eq!(FundRaiser::LEN, 90);
    assert_eq!(Contributor::LEN, 64);
}

#[test]
fn fundraiser_setters_and_getters_agree() {
    let mut record = FundRaiser::default();
    record.set_maker(&[1; 32]);
    record.set_mint_to_raise(&[2; 32]);
    record.set_amount_to_raise(10_000_000);
    record.set_current_amount(7);
    record.set_time_started(1_700_000_000);
    record.set_duration(1);
    record.set_bump(254);
    assert_eq!(record.maker(), [1; 32]);
    assert_eq!(record.mint_to_raise(), [2; 32]);
    assert_eq!(record.amount_to_raise(), 10_000_000);
    assert_eq!(record.current_amount(), 7);
    assert_eq!(record.time_started(), 1_700_000_000);
    assert_eq!(record.duration(), 1);
    assert_eq!(record.bump(), 254);
    assert_eq!(record.amount_to_raise, 10_000_000u64.to_le_bytes());
    assert_eq!(record.time_started, 1_700_000_000i64.to_le_bytes());
}

#[test]
fn fundraiser_total_goes_up_and_down() {
    let mut record = FundRaiser::default();
    record.update_current_amount(1_000_000);
    record.update_current_amount(2_500_000);
    assert_eq!(record.current_amount(), 3_500_000);
    record.subtract_current_amount(1_000_000);
    assert_eq!(record.current_amount(), 2_500_000);
    record.subtract_current_amount(2_500_000);
    assert_eq!(record.current_amount(), 0);
    record.update_current_amount(u64::MAX);
    assert_eq!(record.current_amount(), u64::MAX);
}

#[test]
fn fundraiser_layout_is_its_fields_in_order() {
    let mut record = FundRaiser::default();
    assert_eq!(record.to_bytes(), [0u8; 90]);
    record.set_maker(&[1; 32]);
    record.set_mint_to_raise(&[2; 32]);
    record.set_amount_to_raise(0x0807_0605_0403_0201);
    record.set_current_amount(0x1817_1615_1413_1211);
    record.set_time_started(0x2827_2625_2423_2221);
    record.set_duration(0x31);
    record.set_bump(0x41);
    let mut expected = vec![1u8; 32];
    expected.extend_from_slice(&[2; 32]);
    expected.extend_from_slice(&[1, 2, 3, 4, 5, 6, 7, 8]);
    expected.extend_from_slice(&[0x11, 0x12, 0x13, 0x14, 0x15, 0x16, 0x17, 0x18]);
    expected.extend_from_slice(&[0x21, 0x22, 0x23, 0x24, 0x25, 0x26, 0x27, 0x28]);
    expected.extend_from_slice(&[0x31, 0x41]);
    assert_eq!(record.to_bytes().to_vec(), expected);
    assert_eq!(FundRaiser::from_account_info(&stored(expected.clone())), Ok(record));
    assert_eq!(FundRaiser::from_mut_account_info(&stored(expected)), Ok(record));
}

#[test]
fn fundraiser_is_read_only_from_a_whole_record() {
    for len in [0usize, 1, 82, 89, 91, 165] {
        assert_eq!(
            FundRaiser::from_account_info(&stored(vec![0; len])),
            Err(ProgramError::InvalidAccountData)
        );
        assert_eq!(
            FundRaiser::from_mut_account_info(&stored(vec![0; len])),
            Err(ProgramError::InvalidAccountData)
        );
    }
    assert_eq!(FundRaiser::from_account_info(&stored(vec![0; 90])), Ok(FundRaiser::default()));
}

#[test]
fn contributor_amount_accumulates() {
    let mut record = Contributor { amount: [0; 8] };
    record.set_amount(5);
    record.update_amount(1_000_000);
    assert_eq!(record.amount(), 1_000_005);
    assert_eq!(record.amount, 1_000_005u64.to_le_bytes());
    record.set_amount(0);
    assert_eq!(record.amount(), 0);
    assert_eq!(record, Contributor::default());
    assert_eq!(Contributor::default().amount(), 0);
}

#[test]
fn contributor_is_the_first_bytes_of_its_slot() {
    let mut slot = vec![0u8; 64];
    slot[..8].copy_from_slice(&1_000_000u64.to_le_bytes());
    slot[8] = 77;
    let record = Contributor::from_account_info(&stored(slot)).unwrap();
    assert_eq!(record.amount(), 1_000_000);
    for len in [0usize, 8, 63, 65, 90] {
        assert_eq!(
            Contributor::from_account_info(&stored(vec![0; len])),
            Err(ProgramError::InvalidAccountData)
        );
    }
}

#[test]
fn account_clone_keeps_every_field() {
    let account = stored(vec![1, 2, 3]);
    assert_eq!(account.clone(), account);
    assert!(!account.is_vacant());
    assert!(!account.is_missing());
    let mut empty = stored(vec![]);
    assert!(empty.is_missing());
    assert!(!empty.is_vacant());
    empty.lamports = 0;
    assert!(empty.is_vacant());
    assert!(empty.is_missing());
}
