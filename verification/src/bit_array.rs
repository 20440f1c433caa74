//! A word used as an array of 32 bits.
use vstd::prelude::*;

verus! {

/// Bit `bit` of `word`.
pub open spec fn bit_of(word: u32, bit: u32) -> u32 {
    ((word >> bit) & 1u32) as u32
}

/// `word` with bit `bit` cleared and `value` shifted to `bit` or-ed in.
pub open spec fn with_bit(word: u32, bit: u32, value: u32) -> u32 {
    ((word & !((1u32 << bit) as u32)) | ((value << bit) as u32)) as u32
}

/// Thirty-two bits in one word.
#[derive(Copy, Clone, Debug, PartialEq, Eq, Structural)]
pub struct BitArray {
    pub array: u32,
}

impl BitArray {
    /// The bits of `array`.
    pub fn new(array: u32) -> (r: Self)
        ensures
            r.array == array,
    {
        BitArray { array }
    }

    /// Bit `bit`, as 0 or 1.
    pub fn get_bit(&self, bit: usize) -> (r: u32)
        requires
            bit < 32,
        ensures
            r == bit_of(self.array, bit as u32),
            r <= 1,
    {
        let b = bit as u32;
        let a = self.array;
        let r = (a >> b) & 1;
        proof {
            assert(((a >> b) & 1u32) <= 1u32) by (bit_vector);
        }
        r
    }

    /// The array with bit `bit` cleared and then `value << bit` or-ed in, so
    /// that a `value` of 0 or 1 becomes the bit.
    pub fn set_bit(&self, bit: usize, value: u32) -> (r: Self)
        requires
            bit < 32,
        ensures
            r.array == with_bit(self.array, bit as u32, value),
    {
        let b = bit as u32;
        BitArray { array: (self.array & !(1u32 << b)) | (value << b) }
    }
}

/// Setting a bit to 0 or 1 and reading it back gives that value, and every
/// other bit keeps its value.
pub proof fn lemma_set_bit_get_bit(word: u32, bit: u32, value: u32, other: u32)
    requires
        bit < 32,
        other < 32,
        value <= 1,
    ensures
        bit_of(with_bit(word, bit, value), bit) == value,
        other != bit ==> bit_of(with_bit(word, bit, value), other) == bit_of(word, other),
{
    assert(bit_of(with_bit(word, bit, value), bit) == value && (other != bit ==> bit_of(
        with_bit(word, bit, value),
        other,
    ) == bit_of(word, other))) by (bit_vector)
        requires
            bit < 32,
            other < 32,
            value <= 1,
    ;
}

} // verus!
