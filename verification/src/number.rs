//! Numbers as bit patterns.

use vstd::prelude::*;

verus! {

/// A 32-bit IEEE 754 value, kept as the four bytes of its bit pattern, lowest
/// byte first.
///
/// Two numbers are equal exactly when their bit patterns are equal: `0.0` and
/// `-0.0` differ, and two NaNs are equal only if they carry the same payload.
/// That makes a number fit for hashing and for exact comparison.
#[derive(Debug, Clone, Copy, PartialEq, PartialOrd, Eq, Hash)]
pub struct Number(pub [u8; 4]);

/// The 32-bit pattern whose bytes, lowest first, are `b0`, `b1`, `b2`, `b3`.
pub open spec fn pattern_of(b0: u8, b1: u8, b2: u8, b3: u8) -> u32 {
    (b0 as u32) | ((b1 as u32) << 8) | ((b2 as u32) << 16) | ((b3 as u32) << 24)
}

impl Number {
    /// The bit pattern of the number.
    pub open spec fn bits(self) -> u32 {
        pattern_of(self.0[0], self.0[1], self.0[2], self.0[3])
    }

    /// The number with the given bit pattern.
    pub open spec fn of_bits(bits: u32) -> Number {
        Number(
            [
                (bits & 0xff) as u8,
                ((bits >> 8) & 0xff) as u8,
                ((bits >> 16) & 0xff) as u8,
                ((bits >> 24) & 0xff) as u8,
            ],
        )
    }

    /// Wraps a bit pattern.
    pub fn from_bits(bits: u32) -> (n: Number)
        ensures
            n == Number::of_bits(bits),
            n.bits() == bits,
    {
        proof {
            lemma_bits_round_trip(bits);
        }
        Number(
            [
                (bits & 0xff) as u8,
                ((bits >> 8) & 0xff) as u8,
                ((bits >> 16) & 0xff) as u8,
                ((bits >> 24) & 0xff) as u8,
            ],
        )
    }

    /// Reads the bit pattern back.
    pub fn to_bits(&self) -> (bits: u32)
        ensures
            bits == self.bits(),
    {
        let b0: u32 = self.0[0] as u32;
        let b1: u32 = self.0[1] as u32;
        let b2: u32 = self.0[2] as u32;
        let b3: u32 = self.0[3] as u32;
        b0 | (b1 << 8) | (b2 << 16) | (b3 << 24)
    }
}

/// Wrapping a bit pattern and reading it back gives the same pattern, for
/// every one of the 2^32 patterns: zeros of either sign, infinities and NaNs of
/// any payload included.
pub proof fn lemma_bits_round_trip(bits: u32)
    ensures
        Number::of_bits(bits).bits() == bits,
{
    let b0 = (bits & 0xff) as u8;
    let b1 = ((bits >> 8) & 0xff) as u8;
    let b2 = ((bits >> 16) & 0xff) as u8;
    let b3 = ((bits >> 24) & 0xff) as u8;
    assert(pattern_of(b0, b1, b2, b3) == bits) by (bit_vector)
        requires
            b0 == (bits & 0xff) as u8,
            b1 == ((bits >> 8) & 0xff) as u8,
            b2 == ((bits >> 16) & 0xff) as u8,
            b3 == ((bits >> 24) & 0xff) as u8,
            pattern_of(b0, b1, b2, b3) == (b0 as u32) | ((b1 as u32) << 8) | ((b2 as u32) << 16) | ((b3 as u32) << 24),
    ;
}

/// Reading the bit pattern of a number and wrapping it again gives the same
/// number.
pub proof fn lemma_number_round_trip(n: Number)
    ensures
        Number::of_bits(n.bits()) == n,
{
    let b0 = n.0[0];
    let b1 = n.0[1];
    let b2 = n.0[2];
    let b3 = n.0[3];
    let bits = n.bits();
    assert((bits & 0xff) as u8 == b0 && ((bits >> 8) & 0xff) as u8 == b1 && ((bits >> 16) & 0xff) as u8
        == b2 && ((bits >> 24) & 0xff) as u8 == b3) by (bit_vector)
        requires
            bits == (b0 as u32) | ((b1 as u32) << 8) | ((b2 as u32) << 16) | ((b3 as u32) << 24),
    ;
    assert(Number::of_bits(bits).0 =~= n.0);
}

/// Two numbers are equal exactly when their bit patterns are.
pub proof fn lemma_equal_iff_same_bits(a: Number, b: Number)
    ensures
        (a == b) <==> (a.bits() == b.bits()),
{
    if a.bits() == b.bits() {
        lemma_number_round_trip(a);
        lemma_number_round_trip(b);
    }
}

} // verus!
