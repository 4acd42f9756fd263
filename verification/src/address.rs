//! Addresses that are computed from seeds, and the proofs of authority that
//! the same seeds give.
use vstd::prelude::*;

verus! {

/// Seed label of a campaign record's address.
pub const FUNDRAISER_SEED: [u8; 10] = [102, 117, 110, 100, 114, 97, 105, 115, 101, 114];

/// Seed label of a contribution record's address.
pub const CONTRIBUTOR_SEED: [u8; 11] = [99, 111, 110, 116, 114, 105, 98, 117, 116, 111, 114];

/// The address that `pinocchio_pubkey::derive_address_const` computes from a
/// list of seeds, an optional bump and the address of a program.
pub uninterp spec fn derived_address(
    seeds: Seq<Seq<u8>>,
    bump: Option<u8>,
    program_id: Seq<u8>,
) -> Seq<u8>;

/// The address of the campaign record of `maker` under `bump`.
pub open spec fn fundraiser_address_of(maker: Seq<u8>, bump: u8) -> Seq<u8> {
    derived_address(seq![FUNDRAISER_SEED@, maker, seq![bump]], None, crate::ID@)
}

/// An address found by search, with the bump that the search settled on.
#[derive(Clone, Copy, Debug, PartialEq, Eq)]
pub struct ProgramAddress {
    pub address: [u8; 32],
    pub bump: u8,
}

/// Calls `pinocchio_pubkey::derive_address_const` on the seeds `label`, `key`
/// and the one byte `bump`, with no further bump. Trusted: the result is the
/// address that this function computes from these arguments, a function of
/// the arguments alone.
#[verifier::external_body]
fn derive_address(label: &[u8], key: &[u8; 32], bump: u8, program_id: &[u8; 32]) -> (address: [
    u8;
    32
])
    ensures
        address@ == derived_address(seq![label@, key@, seq![bump]], None, program_id@),
{
    pinocchio_pubkey::derive_address_const(&[label, key.as_slice(), &[bump]], None, program_id)
}

/// Calls `pinocchio::pubkey::try_find_program_address`. Trusted: nothing is
/// claimed of the result. The search is the runtime's; where no runtime
/// answers, the function finds nothing.
#[verifier::external_body]
fn try_find_program_address(seeds: &[&[u8]], program_id: &[u8; 32]) -> (found: Option<
    ([u8; 32], u8),
>)
{
    pinocchio::pubkey::try_find_program_address(seeds, program_id)
}

/// Computes the address of the campaign record of `maker` under `bump`.
pub fn fundraiser_address(maker: &[u8; 32], bump: u8) -> (address: [u8; 32])
    ensures
        address@ == fundraiser_address_of(maker@, bump),
{
    derive_address(FUNDRAISER_SEED.as_slice(), maker, bump, &crate::ID)
}

/// The seeds from which the address of the campaign record of `maker` is
/// searched: the record's label, then the owner.
pub fn fundraiser_search_seeds<'a>(maker: &'a [u8; 32]) -> (seeds: [&'a [u8]; 2])
    ensures
        seeds@.len() == 2,
        seeds@[0]@ == FUNDRAISER_SEED@,
        seeds@[1]@ == maker@,
{
    let label: &'static [u8; 10] = &FUNDRAISER_SEED;
    [label.as_slice(), maker.as_slice()]
}

/// The seeds from which the address of a contribution record is searched:
/// the record's label, then the campaign, then the contributor.
pub fn contributor_search_seeds<'a>(fundraiser: &'a [u8; 32], contributor: &'a [u8; 32]) -> (seeds:
    [&'a [u8]; 3])
    ensures
        seeds@.len() == 3,
        seeds@[0]@ == CONTRIBUTOR_SEED@,
        seeds@[1]@ == fundraiser@,
        seeds@[2]@ == contributor@,
{
    let label: &'static [u8; 11] = &CONTRIBUTOR_SEED;
    [label.as_slice(), fundraiser.as_slice(), contributor.as_slice()]
}

/// Searches for the address of the campaign record of `maker`, from the
/// seeds of `fundraiser_search_seeds` under this program's address.
pub(crate) fn find_fundraiser_address(maker: &[u8; 32]) -> (found: Option<ProgramAddress>) {
    let seeds = fundraiser_search_seeds(maker);
    match try_find_program_address(seeds.as_slice(), &crate::ID) {
        Some((address, bump)) => Some(ProgramAddress { address, bump }),
        None => None,
    }
}

/// Searches for the address of the record of what `contributor` has
/// deposited into the campaign at `fundraiser`, from the seeds of
/// `contributor_search_seeds` under this program's address.
pub(crate) fn find_contributor_address(fundraiser: &[u8; 32], contributor: &[u8; 32]) -> (found: Option<
    ProgramAddress,
>) {
    let seeds = contributor_search_seeds(fundraiser, contributor);
    match try_find_program_address(seeds.as_slice(), &crate::ID) {
        Some((address, bump)) => Some(ProgramAddress { address, bump }),
        None => None,
    }
}

/// The authority of a campaign over its custody account: the seeds of the
/// campaign record's address. Only a handler that has checked the record
/// makes one, and it hands out one for each transfer that it orders.
#[derive(Debug, PartialEq, Eq)]
pub struct FundraiserSigner {
    maker: [u8; 32],
    bump: u8,
}

impl FundraiserSigner {
    /// The owner whose campaign signs.
    pub closed spec fn maker_of(&self) -> Seq<u8> {
        self.maker@
    }

    /// The bump of the campaign record's address.
    pub closed spec fn bump_of(&self) -> u8 {
        self.bump
    }

    /// Makes the authority of the campaign of `maker`.
    pub(crate) fn new(maker: [u8; 32], bump: u8) -> (signer: FundraiserSigner)
        ensures
            signer.maker_of() == maker@,
            signer.bump_of() == bump,
    {
        FundraiserSigner { maker, bump }
    }

    /// The owner whose campaign signs.
    pub fn maker(&self) -> (maker: [u8; 32])
        ensures
            maker@ == self.maker_of(),
    {
        self.maker
    }

    /// The bump that completes the seeds.
    pub fn bump(&self) -> (bump: u8)
        ensures
            bump == self.bump_of(),
    {
        self.bump
    }
}

/// The authority of a contribution record over its own creation: the seeds
/// of the record's address.
#[derive(Debug, PartialEq, Eq)]
pub struct ContributorSigner {
    fundraiser: [u8; 32],
    contributor: [u8; 32],
    bump: u8,
}

impl ContributorSigner {
    /// The campaign that the record belongs to.
    pub closed spec fn fundraiser_of(&self) -> Seq<u8> {
        self.fundraiser@
    }

    /// The contributor that the record belongs to.
    pub closed spec fn contributor_of(&self) -> Seq<u8> {
        self.contributor@
    }

    /// The bump of the record's address.
    pub closed spec fn bump_of(&self) -> u8 {
        self.bump
    }

    /// Makes the authority of one contribution record.
    pub(crate) fn new(fundraiser: [u8; 32], contributor: [u8; 32], bump: u8) -> (signer:
        ContributorSigner)
        ensures
            signer.fundraiser_of() == fundraiser@,
            signer.contributor_of() == contributor@,
            signer.bump_of() == bump,
    {
        ContributorSigner { fundraiser, contributor, bump }
    }

    /// The campaign that the record belongs to.
    pub fn fundraiser(&self) -> (fundraiser: [u8; 32])
        ensures
            fundraiser@ == self.fundraiser_of(),
    {
        self.fundraiser
    }

    /// The contributor that the record belongs to.
    pub fn contributor(&self) -> (contributor: [u8; 32])
        ensures
            contributor@ == self.contributor_of(),
    {
        self.contributor
    }

    /// The bump that completes the seeds.
    pub fn bump(&self) -> (bump: u8)
        ensures
            bump == self.bump_of(),
    {
        self.bump
    }
}

} // verus!
