//! Fixed-width little-endian fields and the byte strings that hold them.
use vstd::prelude::*;

verus! {

/// The number that eight bytes spell, least significant byte first.
pub open spec fn le_u64(bytes: Seq<u8>) -> nat {
    (bytes[0] as nat) + (bytes[1] as nat) * 0x100 + (bytes[2] as nat) * 0x1_0000 + (bytes[3] as nat)
        * 0x100_0000 + (bytes[4] as nat) * 0x1_0000_0000 + (bytes[5] as nat) * 0x100_0000_0000 + (
    bytes[6] as nat) * 0x1_0000_0000_0000 + (bytes[7] as nat) * 0x100_0000_0000_0000
}

/// The unsigned number whose eight bytes are those of a signed timestamp.
pub open spec fn unsigned_bits(value: i64) -> nat {
    if value >= 0 {
        value as nat
    } else {
        (value + 0x1_0000_0000_0000_0000) as nat
    }
}

/// Eight bytes spell a number below 2^64.
pub proof fn lemma_le_u64_bound(bytes: Seq<u8>)
    requires
        bytes.len() == 8,
    ensures
        le_u64(bytes) <= u64::MAX,
{
}

/// A digit below 256 and the rest of a number are determined by the number.
proof fn lemma_split_digit(low_a: nat, high_a: nat, low_b: nat, high_b: nat)
    requires
        low_a < 0x100,
        low_b < 0x100,
        low_a + 0x100 * high_a == low_b + 0x100 * high_b,
    ensures
        low_a == low_b,
        high_a == high_b,
{
}

/// The number that the bytes from position `from` on spell.
spec fn le_tail(bytes: Seq<u8>, from: int) -> nat
    decreases 8 - from,
{
    if from >= 8 {
        0
    } else {
        (bytes[from] as nat) + 0x100 * le_tail(bytes, from + 1)
    }
}

proof fn lemma_le_u64_is_tail(bytes: Seq<u8>)
    ensures
        le_u64(bytes) == le_tail(bytes, 0),
{
    reveal_with_fuel(le_tail, 9);
}

/// Bytes that spell the same number from position `from` on agree from there on.
proof fn lemma_le_tail_injective(a: Seq<u8>, b: Seq<u8>, from: int)
    requires
        0 <= from <= 8,
        le_tail(a, from) == le_tail(b, from),
    ensures
        forall|j: int| from <= j < 8 ==> a[j] == b[j],
    decreases 8 - from,
{
    if from < 8 {
        lemma_split_digit(
            a[from] as nat,
            le_tail(a, from + 1),
            b[from] as nat,
            le_tail(b, from + 1),
        );
        lemma_le_tail_injective(a, b, from + 1);
    }
}

/// Two strings of eight bytes that spell the same number are the same string.
pub proof fn lemma_le_u64_injective(a: Seq<u8>, b: Seq<u8>)
    requires
        a.len() == 8,
        b.len() == 8,
        le_u64(a) == le_u64(b),
    ensures
        a == b,
{
    lemma_le_u64_is_tail(a);
    lemma_le_u64_is_tail(b);
    lemma_le_tail_injective(a, b, 0);
    assert(a =~= b);
}

/// Reads a number from its eight little-endian bytes.
pub fn u64_from_le_bytes(bytes: &[u8; 8]) -> (value: u64)
    ensures
        value == le_u64(bytes@),
{
    (bytes[0] as u64) + (bytes[1] as u64) * 0x100 + (bytes[2] as u64) * 0x1_0000 + (bytes[3] as u64)
        * 0x100_0000 + (bytes[4] as u64) * 0x1_0000_0000 + (bytes[5] as u64) * 0x100_0000_0000 + (
    bytes[6] as u64) * 0x1_0000_0000_0000 + (bytes[7] as u64) * 0x100_0000_0000_0000
}

/// Writes a number as its eight little-endian bytes.
pub fn u64_to_le_bytes(value: u64) -> (bytes: [u8; 8])
    ensures
        le_u64(bytes@) == value,
{
    let rest1: u64 = value / 0x100;
    let rest2: u64 = rest1 / 0x100;
    let rest3: u64 = rest2 / 0x100;
    let rest4: u64 = rest3 / 0x100;
    let rest5: u64 = rest4 / 0x100;
    let rest6: u64 = rest5 / 0x100;
    let rest7: u64 = rest6 / 0x100;
    [
        (value % 0x100) as u8,
        (rest1 % 0x100) as u8,
        (rest2 % 0x100) as u8,
        (rest3 % 0x100) as u8,
        (rest4 % 0x100) as u8,
        (rest5 % 0x100) as u8,
        (rest6 % 0x100) as u8,
        rest7 as u8,
    ]
}

/// Reinterprets a signed timestamp as the unsigned number with the same bytes.
pub fn i64_to_unsigned(value: i64) -> (bits: u64)
    ensures
        bits == unsigned_bits(value),
{
    if value >= 0 {
        value as u64
    } else {
        u64::MAX - ((-(value + 1)) as u64)
    }
}

/// Tells whether two addresses are the same.
pub fn keys_equal(a: &[u8; 32], b: &[u8; 32]) -> (same: bool)
    ensures
        same == (a@ == b@),
{
    let mut i: usize = 0;
    while i < 32
        invariant
            i <= 32,
            forall|j: int| 0 <= j < i ==> a@[j] == b@[j],
        decreases 32 - i,
    {
        if a[i] != b[i] {
            return false;
        }
        i += 1;
    }
    assert(a@ =~= b@);
    true
}

/// Copies `N` bytes out of a byte string, starting at `offset`.
pub fn read_array<const N: usize>(source: &[u8], offset: usize) -> (field: [u8; N])
    requires
        offset + N <= source.len(),
    ensures
        field@ == source@.subrange(offset as int, offset + N),
{
    let mut field = [0u8; N];
    let mut i: usize = 0;
    while i < N
        invariant
            i <= N,
            offset + N <= source.len(),
            forall|j: int| 0 <= j < i ==> field@[j] == source@[offset + j],
        decreases N - i,
    {
        field[i] = source[offset + i];
        i += 1;
    }
    assert(field@ =~= source@.subrange(offset as int, offset + N));
    field
}

} // verus!
