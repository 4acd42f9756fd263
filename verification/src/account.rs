//! What a handler is shown of the ledger: the accounts of the invocation and
//! the answers of the runtime's oracles, as plain values.
use crate::error::ProgramError;
use vstd::prelude::*;

verus! {

/// An asset holding, as the asset sub-ledger reports it.
#[derive(Clone, Copy, Debug, PartialEq, Eq)]
pub struct TokenAccount {
    /// The asset type held.
    pub mint: [u8; 32],
    /// Who controls the holding.
    pub owner: [u8; 32],
    /// The balance.
    pub amount: u64,
}

/// An asset type, as the asset sub-ledger reports it.
#[derive(Clone, Copy, Debug, PartialEq, Eq)]
pub struct Mint {
    /// Number of decimal digits of one whole unit.
    pub decimals: u8,
    /// Whether the asset type has been set up.
    pub is_initialized: bool,
}

/// One account reference of an invocation.
///
/// `token` and `mint` hold what the asset sub-ledger's readers answer for this
/// account: the holding or asset type it stores, or the failure with which
/// they refuse it.
#[derive(Debug, PartialEq, Eq)]
pub struct Account {
    /// The account's address.
    pub key: [u8; 32],
    /// Whether the account authenticated the invocation.
    pub is_signer: bool,
    /// The account's native-currency balance.
    pub lamports: u64,
    /// The account's storage.
    pub data: Vec<u8>,
    /// The account read as an asset holding.
    pub token: Result<TokenAccount, ProgramError>,
    /// The account read as an asset type.
    pub mint: Result<Mint, ProgramError>,
}

/// The answers of the runtime's oracles at the time of the invocation. Each
/// is the oracle's value or the failure with which it refused.
#[derive(Clone, Copy, Debug, PartialEq, Eq)]
pub struct Sysvars {
    /// The clock: seconds since the epoch.
    pub unix_timestamp: Result<i64, ProgramError>,
    /// The storage deposit that a campaign record needs.
    pub fundraiser_rent: Result<u64, ProgramError>,
    /// The storage deposit that a contribution record needs.
    pub contributor_rent: Result<u64, ProgramError>,
}

impl Clone for Account {
    fn clone(&self) -> (copy: Self)
        ensures
            copy.key == self.key,
            copy.is_signer == self.is_signer,
            copy.lamports == self.lamports,
            copy.data@ == self.data@,
            copy.token == self.token,
            copy.mint == self.mint,
    {
        Account {
            key: self.key,
            is_signer: self.is_signer,
            lamports: self.lamports,
            data: self.data.clone(),
            token: self.token,
            mint: self.mint,
        }
    }
}

impl Account {
    /// Nothing lives at the address: no balance and no storage.
    pub open spec fn vacant(&self) -> bool {
        self.lamports == 0 && self.data@.len() == 0
    }

    /// No usable record lives at the address: no balance or no storage.
    pub open spec fn missing(&self) -> bool {
        self.lamports == 0 || self.data@.len() == 0
    }

    /// Tells whether nothing lives at the address.
    pub fn is_vacant(&self) -> (vacant: bool)
        ensures
            vacant == self.vacant(),
    {
        self.lamports == 0 && self.data.len() == 0
    }

    /// Tells whether no usable record lives at the address.
    pub fn is_missing(&self) -> (missing: bool)
        ensures
            missing == self.missing(),
    {
        self.lamports == 0 || self.data.len() == 0
    }
}

} // verus!
