//! Bit-field arithmetic on register words.
//!
//! A field is a run of bits `start..=end` of a word. Every register type of
//! the crate reads and writes its fields through the functions here.
use vstd::prelude::*;

verus! {

// ---------------------------------------------------------------- 32-bit words

/// Mask with ones on bits `start..=end` of a 32-bit word.
pub open spec fn mask32(start: u32, end: u32) -> u32 {
    ((((1u32 << ((end - start + 1) as u32)) - 1) as u32) << start) as u32
}

/// Ones on the low `end - start + 1` bits: the values a field can hold.
pub open spec fn width_mask32(start: u32, end: u32) -> u32 {
    (((1u32 << ((end - start + 1) as u32)) - 1) as u32)
}

/// Value held in bits `start..=end` of `word`.
pub open spec fn field32(word: u32, start: u32, end: u32) -> u32 {
    ((word & mask32(start, end)) >> start) as u32
}

/// `word` with bits `start..=end` replaced by the low bits of `value`.
pub open spec fn with_field32(word: u32, start: u32, end: u32, value: u32) -> u32 {
    ((word & !mask32(start, end)) | (mask32(start, end) & ((value << start) as u32))) as u32
}

/// Field bounds that fit in a 32-bit word, the field narrower than the word.
pub open spec fn valid_field32(start: u32, end: u32) -> bool {
    start <= end && end < 32 && end - start < 31
}

proof fn lemma_one_shl32_positive(w: u32)
    by (bit_vector)
    requires
        w < 32,
    ensures
        (1u32 << w) >= 1,
{
}

/// The mask of bits `start..=end`.
pub fn field_mask32(start: u32, end: u32) -> (r: u32)
    requires
        valid_field32(start, end),
    ensures
        r == mask32(start, end),
{
    proof {
        lemma_one_shl32_positive((end - start + 1) as u32);
    }
    ((1u32 << (end - start + 1)) - 1) << start
}

/// Reads bits `start..=end` of `word`.
pub fn get_field32(word: u32, start: u32, end: u32) -> (r: u32)
    requires
        valid_field32(start, end),
    ensures
        r == field32(word, start, end),
{
    (word & field_mask32(start, end)) >> start
}

/// Writes the low bits of `value` into bits `start..=end` of `word`.
pub fn set_field32(word: u32, start: u32, end: u32, value: u32) -> (r: u32)
    requires
        valid_field32(start, end),
    ensures
        r == with_field32(word, start, end, value),
{
    let mask = field_mask32(start, end);
    (word & !mask) | (mask & (value << start))
}

/// Reading a field back after writing it gives the written value cut to the
/// field's width.
pub proof fn lemma_field32_get_set(word: u32, start: u32, end: u32, value: u32)
    requires
        valid_field32(start, end),
    ensures
        field32(with_field32(word, start, end, value), start, end) == value & width_mask32(
            start,
            end,
        ),
{
    assert(field32(with_field32(word, start, end, value), start, end) == value & width_mask32(
        start,
        end,
    )) by (bit_vector)
        requires
            start <= end && end < 32 && end - start < 31,
    ;
}

/// Writing one field leaves every field that shares no bit with it unchanged.
pub proof fn lemma_field32_set_other(
    word: u32,
    start: u32,
    end: u32,
    value: u32,
    other_start: u32,
    other_end: u32,
)
    requires
        valid_field32(start, end),
        valid_field32(other_start, other_end),
        end < other_start || other_end < start,
    ensures
        field32(with_field32(word, start, end, value), other_start, other_end) == field32(
            word,
            other_start,
            other_end,
        ),
{
    assert(field32(with_field32(word, start, end, value), other_start, other_end) == field32(
        word,
        other_start,
        other_end,
    )) by (bit_vector)
        requires
            start <= end && end < 32 && end - start < 31,
            other_start <= other_end && other_end < 32 && other_end - other_start < 31,
            end < other_start || other_end < start,
    ;
}

/// A field never holds more than its width allows.
pub proof fn lemma_field32_bound(word: u32, start: u32, end: u32)
    requires
        valid_field32(start, end),
    ensures
        field32(word, start, end) <= width_mask32(start, end),
{
    assert(field32(word, start, end) <= width_mask32(start, end)) by (bit_vector)
        requires
            start <= end && end < 32 && end - start < 31,
    ;
}

// ---------------------------------------------------------------- 64-bit words

/// Mask with ones on bits `start..=end` of a 64-bit word.
pub open spec fn mask64(start: u64, end: u64) -> u64 {
    ((((1u64 << ((end - start + 1) as u64)) - 1) as u64) << start) as u64
}

/// Value held in bits `start..=end` of `word`.
pub open spec fn field64(word: u64, start: u64, end: u64) -> u64 {
    ((word & mask64(start, end)) >> start) as u64
}

/// `word` with bits `start..=end` replaced by the low bits of `value`.
pub open spec fn with_field64(word: u64, start: u64, end: u64, value: u64) -> u64 {
    ((word & !mask64(start, end)) | (mask64(start, end) & ((value << start) as u64))) as u64
}

/// Field bounds that fit in a 64-bit word, the field narrower than the word.
pub open spec fn valid_field64(start: u64, end: u64) -> bool {
    start <= end && end < 64 && end - start < 63
}

proof fn lemma_one_shl64_positive(w: u64)
    by (bit_vector)
    requires
        w < 64,
    ensures
        (1u64 << w) >= 1,
{
}

/// The mask of bits `start..=end`.
pub fn field_mask64(start: u64, end: u64) -> (r: u64)
    requires
        valid_field64(start, end),
    ensures
        r == mask64(start, end),
{
    proof {
        lemma_one_shl64_positive((end - start + 1) as u64);
    }
    ((1u64 << (end - start + 1)) - 1) << start
}

/// Reads bits `start..=end` of `word`.
pub fn get_field64(word: u64, start: u64, end: u64) -> (r: u64)
    requires
        valid_field64(start, end),
    ensures
        r == field64(word, start, end),
{
    (word & field_mask64(start, end)) >> start
}

/// Writes the low bits of `value` into bits `start..=end` of `word`.
pub fn set_field64(word: u64, start: u64, end: u64, value: u64) -> (r: u64)
    requires
        valid_field64(start, end),
    ensures
        r == with_field64(word, start, end, value),
{
    let mask = field_mask64(start, end);
    (word & !mask) | (mask & (value << start))
}

// ---------------------------------------------------------------- 8-bit words

/// Value held in bits `start..=end` of a byte.
pub open spec fn field8(word: u8, start: u8, end: u8) -> u8 {
    ((word & (((((1u8 << ((end - start + 1) as u8)) - 1) as u8) << start) as u8)) >> start) as u8
}

/// Field bounds that fit in a byte, the field narrower than the byte.
pub open spec fn valid_field8(start: u8, end: u8) -> bool {
    start <= end && end < 8 && end - start < 7
}

proof fn lemma_one_shl8_positive(w: u8)
    by (bit_vector)
    requires
        w < 8,
    ensures
        (1u8 << w) >= 1,
{
}

/// Reads bits `start..=end` of `word`.
pub fn get_field8(word: u8, start: u8, end: u8) -> (r: u8)
    requires
        valid_field8(start, end),
    ensures
        r == field8(word, start, end),
{
    proof {
        lemma_one_shl8_positive((end - start + 1) as u8);
    }
    let mask: u8 = ((1u8 << (end - start + 1)) - 1) << start;
    (word & mask) >> start
}

} // verus!
