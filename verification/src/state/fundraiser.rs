//! The campaign record: 90 bytes, every field little-endian, no padding.
use crate::account::Account;
use crate::bytes::{
    i64_to_unsigned, le_u64, lemma_le_u64_injective, read_array, u64_from_le_bytes,
    u64_to_le_bytes, unsigned_bits,
};
use crate::error::ProgramError;
use vstd::prelude::*;

verus! {

/// The campaign record as it is stored.
#[derive(Clone, Copy, Debug, PartialEq, Eq)]
pub struct FundRaiser {
    /// Address of the owner, who receives the swept funds.
    pub maker: [u8; 32],
    /// Address of the asset type that the campaign accepts.
    pub mint_to_raise: [u8; 32],
    /// The target amount.
    pub amount_to_raise: [u8; 8],
    /// The running total of accepted contributions.
    pub current_amount: [u8; 8],
    /// The time at which the campaign started.
    pub time_started: [u8; 8],
    /// The length of the campaign window.
    pub duration: [u8; 1],
    /// The byte that fixes the record's derived address.
    pub bump: [u8; 1],
}

/// What a campaign record says.
pub struct FundRaiserView {
    pub maker: Seq<u8>,
    pub mint_to_raise: Seq<u8>,
    pub amount_to_raise: nat,
    pub current_amount: nat,
    pub time_started: nat,
    pub duration: u8,
    pub bump: u8,
}

impl View for FundRaiser {
    type V = FundRaiserView;

    open spec fn view(&self) -> FundRaiserView {
        FundRaiserView {
            maker: self.maker@,
            mint_to_raise: self.mint_to_raise@,
            amount_to_raise: le_u64(self.amount_to_raise@),
            current_amount: le_u64(self.current_amount@),
            time_started: le_u64(self.time_started@),
            duration: self.duration@[0],
            bump: self.bump@[0],
        }
    }
}

impl FundRaiser {
    /// Size of the stored record.
    pub const LEN: usize = 32 + 32 + 8 + 8 + 8 + 1 + 1;

    /// The least target that a campaign may set.
    pub const MIN_AMOUNT_TO_RAISE: u64 = 3;

    /// The stored bytes of the record: its fields in order.
    pub open spec fn bytes(&self) -> Seq<u8> {
        self.maker@ + self.mint_to_raise@ + self.amount_to_raise@ + self.current_amount@
            + self.time_started@ + self.duration@ + self.bump@
    }

    /// What the record stored in `bytes` says.
    pub open spec fn view_of(bytes: Seq<u8>) -> FundRaiserView {
        FundRaiserView {
            maker: bytes.subrange(0, 32),
            mint_to_raise: bytes.subrange(32, 64),
            amount_to_raise: le_u64(bytes.subrange(64, 72)),
            current_amount: le_u64(bytes.subrange(72, 80)),
            time_started: le_u64(bytes.subrange(80, 88)),
            duration: bytes[88],
            bump: bytes[89],
        }
    }

    /// The record that says nothing: every byte zero.
    pub open spec fn zeroed(&self) -> bool {
        forall|i: int| 0 <= i < self.bytes().len() ==> self.bytes()[i] == 0
    }

    /// Reads the record that an account stores. The account must store
    /// exactly the bytes of one record.
    pub fn from_account_info(account: &Account) -> (result: Result<FundRaiser, ProgramError>)
        ensures
            account.data@.len() == Self::LEN ==> result is Ok && result->Ok_0.bytes()
                == account.data@ && result->Ok_0@ == Self::view_of(account.data@),
            account.data@.len() != Self::LEN ==> result == Err::<FundRaiser, ProgramError>(
                ProgramError::InvalidAccountData,
            ),
    {
        let data = account.data.as_slice();
        if data.len() != Self::LEN {
            return Err(ProgramError::InvalidAccountData);
        }
        let record = FundRaiser {
            maker: read_array::<32>(data, 0),
            mint_to_raise: read_array::<32>(data, 32),
            amount_to_raise: read_array::<8>(data, 64),
            current_amount: read_array::<8>(data, 72),
            time_started: read_array::<8>(data, 80),
            duration: read_array::<1>(data, 88),
            bump: read_array::<1>(data, 89),
        };
        assert(record.bytes() =~= account.data@);
        Ok(record)
    }

    /// Reads the record that an account stores, for a handler that is about
    /// to change it. The account must store exactly the bytes of one record.
    pub fn from_mut_account_info(account: &Account) -> (result: Result<FundRaiser, ProgramError>)
        ensures
            account.data@.len() == Self::LEN ==> result is Ok && result->Ok_0.bytes()
                == account.data@ && result->Ok_0@ == Self::view_of(account.data@),
            account.data@.len() != Self::LEN ==> result == Err::<FundRaiser, ProgramError>(
                ProgramError::InvalidAccountData,
            ),
    {
        Self::from_account_info(account)
    }

    /// Names the owner.
    pub fn set_maker(&mut self, maker: &[u8; 32])
        ensures
            final(self)@ == (FundRaiserView { maker: maker@, ..old(self)@ }),
    {
        self.maker = *maker;
    }

    /// The owner's address.
    pub fn maker(&self) -> (maker: [u8; 32])
        ensures
            maker@ == self@.maker,
    {
        self.maker
    }

    /// Names the asset type that the campaign accepts.
    pub fn set_mint_to_raise(&mut self, mint: &[u8; 32])
        ensures
            final(self)@ == (FundRaiserView { mint_to_raise: mint@, ..old(self)@ }),
    {
        self.mint_to_raise = *mint;
    }

    /// The address of the asset type that the campaign accepts.
    pub fn mint_to_raise(&self) -> (mint: [u8; 32])
        ensures
            mint@ == self@.mint_to_raise,
    {
        self.mint_to_raise
    }

    /// Sets the target amount.
    pub fn set_amount_to_raise(&mut self, amount: u64)
        ensures
            final(self)@ == (FundRaiserView { amount_to_raise: amount as nat, ..old(self)@ }),
    {
        self.amount_to_raise = u64_to_le_bytes(amount);
    }

    /// The target amount.
    pub fn amount_to_raise(&self) -> (amount: u64)
        ensures
            amount == self@.amount_to_raise,
    {
        u64_from_le_bytes(&self.amount_to_raise)
    }

    /// Sets the running total of accepted contributions.
    pub fn set_current_amount(&mut self, amount: u64)
        ensures
            final(self)@ == (FundRaiserView { current_amount: amount as nat, ..old(self)@ }),
    {
        self.current_amount = u64_to_le_bytes(amount);
    }

    /// The running total of accepted contributions.
    pub fn current_amount(&self) -> (amount: u64)
        ensures
            amount == self@.current_amount,
    {
        u64_from_le_bytes(&self.current_amount)
    }

    /// Adds an accepted contribution to the running total.
    pub fn update_current_amount(&mut self, amount: u64)
        requires
            old(self)@.current_amount + amount <= u64::MAX,
        ensures
            final(self)@ == (FundRaiserView {
                current_amount: (old(self)@.current_amount + amount) as nat,
                ..old(self)@
            }),
    {
        let current_amount = u64_from_le_bytes(&self.current_amount);
        let updated_current_amount = current_amount + amount;
        self.current_amount = u64_to_le_bytes(updated_current_amount);
    }

    /// Takes a refunded contribution off the running total.
    pub fn subtract_current_amount(&mut self, amount: u64)
        requires
            amount <= old(self)@.current_amount,
        ensures
            final(self)@ == (FundRaiserView {
                current_amount: (old(self)@.current_amount - amount) as nat,
                ..old(self)@
            }),
    {
        let current_amount = u64_from_le_bytes(&self.current_amount);
        let updated_current_amount = current_amount - amount;
        self.current_amount = u64_to_le_bytes(updated_current_amount);
    }

    /// Stores the clock's timestamp: the same eight bytes, read as unsigned
    /// from then on.
    pub fn set_time_started(&mut self, timestamp: i64)
        ensures
            final(self)@ == (FundRaiserView {
                time_started: unsigned_bits(timestamp),
                ..old(self)@
            }),
    {
        self.time_started = u64_to_le_bytes(i64_to_unsigned(timestamp));
    }

    /// The time at which the campaign started, in seconds.
    pub fn time_started(&self) -> (timestamp: u64)
        ensures
            timestamp == self@.time_started,
    {
        u64_from_le_bytes(&self.time_started)
    }

    /// Sets the length of the campaign window.
    pub fn set_duration(&mut self, duration: u8)
        ensures
            final(self)@ == (FundRaiserView { duration, ..old(self)@ }),
    {
        self.duration = [duration];
    }

    /// The length of the campaign window.
    pub fn duration(&self) -> (duration: u8)
        ensures
            duration == self@.duration,
    {
        self.duration[0]
    }

    /// Sets the byte that fixes the record's derived address.
    pub fn set_bump(&mut self, bump: u8)
        ensures
            final(self)@ == (FundRaiserView { bump, ..old(self)@ }),
    {
        self.bump = [bump];
    }

    /// The byte that fixes the record's derived address.
    pub fn bump(&self) -> (bump: u8)
        ensures
            bump == self@.bump,
    {
        self.bump[0]
    }

    /// The bytes to store for the record.
    pub fn to_bytes(&self) -> (bytes: [u8; 90])
        ensures
            bytes@ == self.bytes(),
    {
        let mut bytes = [0u8; 90];
        let mut i: usize = 0;
        while i < 32
            invariant
                i <= 32,
                forall|j: int| 0 <= j < i ==> bytes@[j] == self.maker@[j],
                forall|j: int| 0 <= j < i ==> bytes@[32 + j] == self.mint_to_raise@[j],
            decreases 32 - i,
        {
            bytes[i] = self.maker[i];
            bytes[32 + i] = self.mint_to_raise[i];
            i += 1;
        }
        let mut i: usize = 0;
        while i < 8
            invariant
                i <= 8,
                forall|j: int| 0 <= j < 32 ==> bytes@[j] == self.maker@[j],
                forall|j: int| 0 <= j < 32 ==> bytes@[32 + j] == self.mint_to_raise@[j],
                forall|j: int| 0 <= j < i ==> bytes@[64 + j] == self.amount_to_raise@[j],
                forall|j: int| 0 <= j < i ==> bytes@[72 + j] == self.current_amount@[j],
                forall|j: int| 0 <= j < i ==> bytes@[80 + j] == self.time_started@[j],
            decreases 8 - i,
        {
            bytes[64 + i] = self.amount_to_raise[i];
            bytes[72 + i] = self.current_amount[i];
            bytes[80 + i] = self.time_started[i];
            i += 1;
        }
        bytes[88] = self.duration[0];
        bytes[89] = self.bump[0];
        assert(bytes@ =~= self.bytes());
        bytes
    }
}

impl Default for FundRaiser {
    /// The record that says nothing: every byte zero.
    fn default() -> (record: FundRaiser)
        ensures
            record.zeroed(),
            record@ == (FundRaiserView {
                maker: Seq::new(32, |i: int| 0u8),
                mint_to_raise: Seq::new(32, |i: int| 0u8),
                amount_to_raise: 0,
                current_amount: 0,
                time_started: 0,
                duration: 0,
                bump: 0,
            }),
    {
        let record = FundRaiser {
            maker: [0u8; 32],
            mint_to_raise: [0u8; 32],
            amount_to_raise: [0u8; 8],
            current_amount: [0u8; 8],
            time_started: [0u8; 8],
            duration: [0u8; 1],
            bump: [0u8; 1],
        };
        assert(record.maker@ =~= Seq::new(32, |i: int| 0u8));
        assert(record.mint_to_raise@ =~= Seq::new(32, |i: int| 0u8));
        record
    }
}

/// A stored record has the layout's length.
pub proof fn lemma_bytes_len(record: FundRaiser)
    ensures
        record.bytes().len() == FundRaiser::LEN,
{
}

/// The stored bytes of a record say what the record says.
pub proof fn lemma_view_of_bytes(record: FundRaiser)
    ensures
        FundRaiser::view_of(record.bytes()) == record@,
{
    let s = record.bytes();
    assert(record.maker@ =~= s.subrange(0, 32));
    assert(record.mint_to_raise@ =~= s.subrange(32, 64));
    assert(record.amount_to_raise@ =~= s.subrange(64, 72));
    assert(record.current_amount@ =~= s.subrange(72, 80));
    assert(record.time_started@ =~= s.subrange(80, 88));
}

/// Records that store the same bytes are the same record: reading back what
/// was stored gives the record that was stored.
pub proof fn lemma_bytes_determine_record(a: FundRaiser, b: FundRaiser)
    requires
        a.bytes() == b.bytes(),
    ensures
        a == b,
{
    let s = a.bytes();
    let t = b.bytes();
    assert(a.maker@ =~= s.subrange(0, 32));
    assert(b.maker@ =~= t.subrange(0, 32));
    assert(a.mint_to_raise@ =~= s.subrange(32, 64));
    assert(b.mint_to_raise@ =~= t.subrange(32, 64));
    assert(a.amount_to_raise@ =~= s.subrange(64, 72));
    assert(b.amount_to_raise@ =~= t.subrange(64, 72));
    assert(a.current_amount@ =~= s.subrange(72, 80));
    assert(b.current_amount@ =~= t.subrange(72, 80));
    assert(a.time_started@ =~= s.subrange(80, 88));
    assert(b.time_started@ =~= t.subrange(80, 88));
    assert(a.duration@ =~= s.subrange(88, 89));
    assert(b.duration@ =~= t.subrange(88, 89));
    assert(a.bump@ =~= s.subrange(89, 90));
    assert(b.bump@ =~= t.subrange(89, 90));
    assert(a.maker =~= b.maker);
    assert(a.mint_to_raise =~= b.mint_to_raise);
    assert(a.amount_to_raise =~= b.amount_to_raise);
    assert(a.current_amount =~= b.current_amount);
    assert(a.time_started =~= b.time_started);
    assert(a.duration =~= b.duration);
    assert(a.bump =~= b.bump);
}

/// Records that say the same are the same record.
pub proof fn lemma_view_determines_record(a: FundRaiser, b: FundRaiser)
    requires
        a@ == b@,
    ensures
        a == b,
{
    lemma_le_u64_injective(a.amount_to_raise@, b.amount_to_raise@);
    lemma_le_u64_injective(a.current_amount@, b.current_amount@);
    lemma_le_u64_injective(a.time_started@, b.time_started@);
    assert(a.duration@ =~= b.duration@);
    assert(a.bump@ =~= b.bump@);
    assert(a.maker =~= b.maker);
    assert(a.mint_to_raise =~= b.mint_to_raise);
    assert(a.amount_to_raise =~= b.amount_to_raise);
    assert(a.current_amount =~= b.current_amount);
    assert(a.time_started =~= b.time_started);
    assert(a.duration =~= b.duration);
    assert(a.bump =~= b.bump);
}

} // verus!
