//! Byte images of the integer slices that are uploaded to GPU buffers.

use vstd::prelude::*;

verus! {

/// Byte `k` (0 is the least significant) of a 32-bit word.
pub open spec fn word_byte(w: u32, k: int) -> u8 {
    if k == 0 {
        (w % 256) as u8
    } else if k == 1 {
        ((w / 256) % 256) as u8
    } else if k == 2 {
        ((w / 65536) % 256) as u8
    } else {
        ((w / 16777216) % 256) as u8
    }
}

/// Byte `k` (0 is the least significant) of a 16-bit halfword.
pub open spec fn half_byte(h: u16, k: int) -> u8 {
    if k == 0 {
        (h % 256) as u8
    } else {
        ((h / 256) % 256) as u8
    }
}

/// The words laid out one after the other, least significant byte first.
pub open spec fn le_words(words: Seq<u32>) -> Seq<u8> {
    Seq::new(4 * words.len(), |i: int| word_byte(words[i / 4], i % 4))
}

/// The words laid out one after the other, most significant byte first.
pub open spec fn be_words(words: Seq<u32>) -> Seq<u8> {
    Seq::new(4 * words.len(), |i: int| word_byte(words[i / 4], 3 - i % 4))
}

/// The halfwords laid out one after the other, least significant byte first.
pub open spec fn le_halves(halves: Seq<u16>) -> Seq<u8> {
    Seq::new(2 * halves.len(), |i: int| half_byte(halves[i / 2], i % 2))
}

/// The halfwords laid out one after the other, most significant byte first.
pub open spec fn be_halves(halves: Seq<u16>) -> Seq<u8> {
    Seq::new(2 * halves.len(), |i: int| half_byte(halves[i / 2], 1 - i % 2))
}

/// `bytes` is the memory image of `words` on a little-endian or on a
/// big-endian machine.
pub open spec fn is_word_image(bytes: Seq<u8>, words: Seq<u32>) -> bool {
    bytes == le_words(words) || bytes == be_words(words)
}

/// `bytes` is the memory image of `halves` on a little-endian or on a
/// big-endian machine.
pub open spec fn is_half_image(bytes: Seq<u8>, halves: Seq<u16>) -> bool {
    bytes == le_halves(halves) || bytes == be_halves(halves)
}

/// Calls `bytemuck::cast_slice` from `u32` to `u8` and copies the bytes out.
///
/// The cast reinterprets the slice's memory without moving it, so the
/// contract claims four bytes per word in the byte order of the machine,
/// which is one of the two that there are. The cast cannot fail in this
/// direction, since a byte has no alignment to violate and every length
/// in bytes is a whole number of bytes.
#[verifier::external_body]
pub(crate) fn cast_words(words: &[u32]) -> (bytes: Vec<u8>)
    ensures
        is_word_image(bytes@, words@),
{
    bytemuck::cast_slice::<u32, u8>(words).to_vec()
}

/// Calls `bytemuck::cast_slice` from `u16` to `u8` and copies the bytes out.
///
/// As for words, the contract claims two bytes per halfword in the byte
/// order of the machine.
#[verifier::external_body]
pub(crate) fn cast_halves(halves: &[u16]) -> (bytes: Vec<u8>)
    ensures
        is_half_image(bytes@, halves@),
{
    bytemuck::cast_slice::<u16, u8>(halves).to_vec()
}

/// The bytes that a buffer of 32-bit words holds on this machine.
pub fn words_to_bytes(words: &Vec<u32>) -> (bytes: Vec<u8>)
    ensures
        is_word_image(bytes@, words@),
        bytes@.len() == 4 * words@.len(),
{
    cast_words(words.as_slice())
}

/// The bytes that a buffer of 16-bit halfwords holds on this machine.
pub fn halves_to_bytes(halves: &Vec<u16>) -> (bytes: Vec<u8>)
    ensures
        is_half_image(bytes@, halves@),
        bytes@.len() == 2 * halves@.len(),
{
    cast_halves(halves.as_slice())
}

} // verus!
