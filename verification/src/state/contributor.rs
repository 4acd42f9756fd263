//! The contribution record: eight meaningful bytes in a slot of 64.
use crate::account::Account;
use crate::bytes::{le_u64, read_array, u64_from_le_bytes, u64_to_le_bytes};
use crate::error::ProgramError;
use vstd::prelude::*;

verus! {

/// The contribution record as it is stored.
#[derive(Clone, Copy, Debug, PartialEq, Eq)]
pub struct Contributor {
    /// What this contributor has deposited into the campaign so far.
    pub amount: [u8; 8],
}

/// What a contribution record says.
pub struct ContributorView {
    pub amount: nat,
}

impl View for Contributor {
    type V = ContributorView;

    open spec fn view(&self) -> ContributorView {
        ContributorView { amount: le_u64(self.amount@) }
    }
}

impl Default for Contributor {
    /// The record of a contributor who has deposited nothing.
    fn default() -> (record: Contributor)
        ensures
            record@.amount == 0,
    {
        Contributor { amount: [0u8; 8] }
    }
}

impl Contributor {
    /// Size of the slot that holds the record.
    pub const LEN: usize = 64;

    /// What the record stored in the slot `bytes` says.
    pub open spec fn view_of(bytes: Seq<u8>) -> ContributorView {
        ContributorView { amount: le_u64(bytes.subrange(0, 8)) }
    }

    /// Reads the record that an account stores. The account must store
    /// exactly one slot; the record is the slot's first eight bytes.
    pub fn from_account_info(account: &Account) -> (result: Result<Contributor, ProgramError>)
        ensures
            account.data@.len() == Self::LEN ==> result is Ok && result->Ok_0.amount@
                == account.data@.subrange(0, 8) && result->Ok_0@ == Self::view_of(account.data@),
            account.data@.len() != Self::LEN ==> result == Err::<Contributor, ProgramError>(
                ProgramError::InvalidAccountData,
            ),
    {
        let data = account.data.as_slice();
        if data.len() != Self::LEN {
            return Err(ProgramError::InvalidAccountData);
        }
        Ok(Contributor { amount: read_array::<8>(data, 0) })
    }

    /// Sets what the contributor has deposited.
    pub fn set_amount(&mut self, amount: u64)
        ensures
            final(self)@.amount == amount,
    {
        self.amount = u64_to_le_bytes(amount);
    }

    /// What the contributor has deposited.
    pub fn amount(&self) -> (amount: u64)
        ensures
            amount == self@.amount,
    {
        u64_from_le_bytes(&self.amount)
    }

    /// Adds an accepted contribution to the contributor's total.
    pub fn update_amount(&mut self, amount: u64)
        requires
            old(self)@.amount + amount <= u64::MAX,
        ensures
            final(self)@.amount == old(self)@.amount + amount,
    {
        let current_amount = u64_from_le_bytes(&self.amount);
        let updated_amount = current_amount + amount;
        self.amount = u64_to_le_bytes(updated_amount);
    }
}

} // verus!
