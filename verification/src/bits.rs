use vstd::prelude::*;

verus! {

/// What the bit operations on a byte compute, in plain arithmetic.
pub proof fn lemma_u8_arith(x: u8)
    by (bit_vector)
    ensures
        x & 0x0F == x % 16,
        x & 0x80 == (if x >= 128 { 128u8 } else { 0u8 }),
        x & 0x01 == x % 2,
        x >> 1 == x / 2,
        x >> 4 == x / 16,
        x >> 7 == x / 128,
        x << 1 == ((x as u16 * 2) % 256) as u8,
        (x & 0x0F) << 4 == ((x % 16) as u16 * 16) as u8,
        (x & 0xF0) >> 4 == x / 16,
        (x & 0x80) >> 7 == x / 128,
        (x & 0x80 == 0x80) == (x & 0x80 != 0),
        (x & 0x40 == 0x40) == (x & 0x40 != 0),
        (x & 0x20 == 0x20) == (x & 0x20 != 0),
        (x & 0x10 == 0x10) == (x & 0x10 != 0),
{
}

/// A 16-bit word is the word of its high and low byte; with the low nibble cleared, of its high
/// byte and its low byte's upper nibble.
pub proof fn lemma_u16_high_low(x: u16)
    by (bit_vector)
    ensures
        ((x / 256) as u16 * 256 + ((x % 256) as u8) as u16) as u16 == x,
        ((x / 256) as u16 * 256 + (((x % 256) as u8) & 0xF0) as u16) as u16 == x & 0xFFF0,
{
}

/// A non-zero AND of two bytes has both of them non-zero.
pub proof fn lemma_u8_and_nonzero(x: u8, y: u8)
    by (bit_vector)
    ensures
        x & y != 0 ==> x != 0 && y != 0,
{
}

/// A byte combined with itself.
pub proof fn lemma_u8_self(x: u8)
    by (bit_vector)
    ensures
        x ^ x == 0,
        x & x == x,
        x | x == x,
{
}

/// Or-ing nothing into a byte keeps it.
pub proof fn lemma_u8_or_zero(x: u8, y: u8)
    by (bit_vector)
    ensures
        y == 0 ==> x | y == x,
{
}

/// Putting a new low bit under a byte shifted left.
pub proof fn lemma_u8_shl_or(x: u8, y: u8)
    by (bit_vector)
    ensures
        y <= 1 ==> (x << 1) | y == ((x as u16 * 2) % 256 + y as u16) as u8,
{
}

/// Putting a new high bit over a byte shifted right.
pub proof fn lemma_u8_shr_or(x: u8, y: u8)
    by (bit_vector)
    ensures
        y <= 1 ==> (x >> 1) | (y << 7) == ((x / 2) as u16 + y as u16 * 128) as u8,
{
}

/// A byte shifted right with nothing put over it.
pub proof fn lemma_u8_shr_or_zero(x: u8, y: u8)
    by (bit_vector)
    ensures
        y == 0 ==> (x >> 1) | y == x / 2,
{
}

/// A byte shifted right that keeps its high bit, and a byte with its nibbles swapped.
pub proof fn lemma_u8_shr_swap(x: u8)
    by (bit_vector)
    ensures
        (x >> 1) | (x & 0x80) == ((x / 2) as u16 + (if x >= 128 { 128u16 } else { 0u16 })) as u8,
        ((x & 0x0F) << 4) | ((x & 0xF0) >> 4) == ((x % 16) as u16 * 16 + (x / 16) as u16) as u8,
{
}

/// The fields of an opcode: its low three bits and the three bits above them.
pub proof fn lemma_opcode_fields(x: u8)
    by (bit_vector)
    ensures
        (x & 0b0001_1000) >> 3 == (x / 8) % 4,
        (x & 0b0011_1000) >> 3 == (x / 8) % 8,
        x & 0b0000_0111 == x % 8,
        x & 0b0011_1000 == ((x / 8) % 8) * 8,
{
}

/// What the bit operations on a 16-bit word compute, in plain arithmetic.
pub proof fn lemma_u16_arith(x: u16)
    by (bit_vector)
    ensures
        x & 0x0F == x % 16,
        x & 0xFF == x % 256,
        x & 0x0FFF == x % 4096,
        (x & 0xFF00) >> 8 == x / 256,
        x & 0x00FF == x % 256,
        (x >> 8) & 0xFF == x / 256,
{
}

/// A byte buffer of `n` zeros.
pub open spec fn zeros(n: nat) -> Seq<u8> {
    Seq::new(n, |i: int| 0u8)
}

/// A new byte buffer of `n` zeros.
pub fn zeroed(n: usize) -> (v: Vec<u8>)
    ensures
        v@ == zeros(n as nat),
{
    let v = vec![0u8; n];
    assert(v@ =~= zeros(n as nat));
    v
}

} // verus!
