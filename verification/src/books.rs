//! The books of a campaign over many contributions: what has been raised in
//! all, and what each contributor has deposited.
use crate::account::{Account, Sysvars};
use crate::address::ProgramAddress;
use crate::bytes::le_u64;
use crate::instructions::contribute::{
    contribute_error, contribute_post, deposited_so_far, ContributeOutcome,
};
use crate::rules::{contribution_cap, within_cap};
use crate::state::FundRaiser;
use vstd::prelude::*;

verus! {

/// One accepted contribution.
pub struct Deposit {
    pub contributor: Seq<u8>,
    pub amount: nat,
}

/// What the records of a campaign say together: the campaign record's
/// running total, and the amount in each contribution record.
pub struct Books {
    pub raised: nat,
    pub deposited: Map<Seq<u8>, nat>,
}

impl Books {
    /// What a contributor has deposited; nothing where there is no record.
    pub open spec fn deposited_by(self, contributor: Seq<u8>) -> nat {
        if self.deposited.dom().contains(contributor) {
            self.deposited[contributor]
        } else {
            0
        }
    }

    /// The books once a contribution has been accepted: it is added to the
    /// running total and to its contributor's record.
    pub open spec fn record(self, deposit: Deposit) -> Books {
        Books {
            raised: self.raised + deposit.amount,
            deposited: self.deposited.insert(
                deposit.contributor,
                self.deposited_by(deposit.contributor) + deposit.amount,
            ),
        }
    }

    /// The books once a sequence of contributions has been accepted.
    pub open spec fn record_all(self, deposits: Seq<Deposit>) -> Books
        decreases deposits.len(),
    {
        if deposits.len() == 0 {
            self
        } else {
            self.record_all(deposits.drop_last()).record(deposits.last())
        }
    }
}

/// The sum of a sequence of contributions.
pub open spec fn total(deposits: Seq<Deposit>) -> nat
    decreases deposits.len(),
{
    if deposits.len() == 0 {
        0
    } else {
        total(deposits.drop_last()) + deposits.last().amount
    }
}

/// The sum of the contributions that one contributor made.
pub open spec fn total_by(deposits: Seq<Deposit>, contributor: Seq<u8>) -> nat
    decreases deposits.len(),
{
    if deposits.len() == 0 {
        0
    } else if deposits.last().contributor == contributor {
        total_by(deposits.drop_last(), contributor) + deposits.last().amount
    } else {
        total_by(deposits.drop_last(), contributor)
    }
}

/// Whether each contribution of a sequence is within the cap at the time it
/// is made: alone, and together with what its contributor deposited before.
pub open spec fn all_within_cap(target: nat, books: Books, deposits: Seq<Deposit>) -> bool
    decreases deposits.len(),
{
    if deposits.len() == 0 {
        true
    } else {
        &&& all_within_cap(target, books, deposits.drop_last())
        &&& within_cap(
            target,
            books.record_all(deposits.drop_last()).deposited_by(deposits.last().contributor),
            deposits.last().amount,
        )
    }
}

/// After any sequence of accepted contributions the running total has grown
/// by their sum, and each contributor's record by the sum of that
/// contributor's own.
pub proof fn lemma_books_are_sums(books: Books, deposits: Seq<Deposit>, contributor: Seq<u8>)
    ensures
        books.record_all(deposits).raised == books.raised + total(deposits),
        books.record_all(deposits).deposited_by(contributor) == books.deposited_by(contributor)
            + total_by(deposits, contributor),
    decreases deposits.len(),
{
    if deposits.len() > 0 {
        lemma_books_are_sums(books, deposits.drop_last(), contributor);
    }
}

/// A campaign that starts with nothing raised has raised exactly the sum of
/// the contributions accepted since, and holds for each contributor exactly
/// the sum of that contributor's.
pub proof fn lemma_fresh_books_are_sums(deposits: Seq<Deposit>, contributor: Seq<u8>)
    ensures
        (Books { raised: 0, deposited: Map::empty() }).record_all(deposits).raised == total(
            deposits,
        ),
        (Books { raised: 0, deposited: Map::empty() }).record_all(deposits).deposited_by(
            contributor,
        ) == total_by(deposits, contributor),
{
    lemma_books_are_sums(Books { raised: 0, deposited: Map::empty() }, deposits, contributor);
}

/// Contributions that are each within the cap never take a contributor's
/// record above the cap.
pub proof fn lemma_cap_is_kept(
    target: nat,
    books: Books,
    deposits: Seq<Deposit>,
    contributor: Seq<u8>,
)
    requires
        all_within_cap(target, books, deposits),
        books.deposited_by(contributor) <= contribution_cap(target),
    ensures
        books.record_all(deposits).deposited_by(contributor) <= contribution_cap(target),
    decreases deposits.len(),
{
    if deposits.len() > 0 {
        lemma_cap_is_kept(target, books, deposits.drop_last(), contributor);
    }
}

/// Contribute refuses whatever is not within the cap: an amount above the
/// cap, and an amount that would take the contributor's deposits above it.
pub proof fn lemma_contribute_refuses_above_cap(
    accounts: Seq<Account>,
    data: Seq<u8>,
    sysvars: Sysvars,
    found: Option<ProgramAddress>,
)
    requires
        !within_cap(
            FundRaiser::view_of(accounts[2].data@).amount_to_raise,
            deposited_so_far(accounts[3]),
            le_u64(data.subrange(0, 8)),
        ),
    ensures
        contribute_error(accounts, data, sysvars, found) is Some,
{
}

/// An accepted Contribute keeps the books: the records that it orders to be
/// stored are those of the books with the contribution recorded, and the
/// contribution was within the cap.
pub proof fn lemma_contribute_keeps_books(
    accounts: Seq<Account>,
    data: Seq<u8>,
    sysvars: Sysvars,
    found: Option<ProgramAddress>,
    outcome: ContributeOutcome,
    books: Books,
)
    requires
        contribute_post(accounts, data, sysvars, found, Ok(outcome)),
        books.raised == FundRaiser::view_of(accounts[2].data@).current_amount,
        books.deposited_by(accounts[0].key@) == deposited_so_far(accounts[3]),
    ensures
        ({
            let deposit = Deposit { contributor: accounts[0].key@, amount: outcome.amount as nat };
            let after = books.record(deposit);
            &&& outcome.fundraiser@.current_amount == after.raised
            &&& outcome.contributor@.amount == after.deposited_by(accounts[0].key@)
            &&& forall|other: Seq<u8>|
                other != accounts[0].key@ ==> after.deposited_by(other) == books.deposited_by(
                    other,
                )
            &&& within_cap(
                FundRaiser::view_of(accounts[2].data@).amount_to_raise,
                books.deposited_by(accounts[0].key@),
                deposit.amount,
            )
        }),
{
}

} // verus!
