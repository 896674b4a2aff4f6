//! Little-endian packing of 32-bit words.

use vstd::prelude::*;

verus! {

/// The four bytes of `word`, least significant first.
pub open spec fn le_bytes(word: u32) -> Seq<u8> {
    seq![
        (word & 0xff) as u8,
        ((word >> 8) & 0xff) as u8,
        ((word >> 16) & 0xff) as u8,
        ((word >> 24) & 0xff) as u8,
    ]
}

/// The word whose little-endian bytes are `b0, b1, b2, b3`.
pub open spec fn le_word(b0: u8, b1: u8, b2: u8, b3: u8) -> u32 {
    (b0 as u32) | ((b1 as u32) << 8) | ((b2 as u32) << 16) | ((b3 as u32) << 24)
}

/// The word stored little-endian in `bytes[at .. at + 4]`.
pub open spec fn le_word_at(bytes: Seq<u8>, at: int) -> u32 {
    le_word(bytes[at], bytes[at + 1], bytes[at + 2], bytes[at + 3])
}

/// Reading back the bytes of a word gives the word.
pub proof fn lemma_le_word_of_bytes(word: u32)
    ensures
        le_bytes(word).len() == 4,
        le_word_at(le_bytes(word), 0) == word,
{
    let b = le_bytes(word);
    assert(le_word(
        (word & 0xff) as u8,
        ((word >> 8) & 0xff) as u8,
        ((word >> 16) & 0xff) as u8,
        ((word >> 24) & 0xff) as u8,
    ) == word) by (bit_vector);
}

/// Writing out the word read from four bytes gives those bytes.
pub proof fn lemma_le_bytes_of_word(b0: u8, b1: u8, b2: u8, b3: u8)
    ensures
        le_bytes(le_word(b0, b1, b2, b3)) == seq![b0, b1, b2, b3],
{
    let word = le_word(b0, b1, b2, b3);
    assert((le_word(b0, b1, b2, b3) & 0xff) as u8 == b0) by (bit_vector);
    assert(((le_word(b0, b1, b2, b3) >> 8) & 0xff) as u8 == b1) by (bit_vector);
    assert(((le_word(b0, b1, b2, b3) >> 16) & 0xff) as u8 == b2) by (bit_vector);
    assert(((le_word(b0, b1, b2, b3) >> 24) & 0xff) as u8 == b3) by (bit_vector);
    assert(le_bytes(word) =~= seq![b0, b1, b2, b3]);
}

/// Splits `word` into its little-endian bytes.
pub fn word_to_le(word: u32) -> (bytes: [u8; 4])
    ensures
        bytes@ == le_bytes(word),
{
    let bytes: [u8; 4] = [
        (word & 0xff) as u8,
        ((word >> 8) & 0xff) as u8,
        ((word >> 16) & 0xff) as u8,
        ((word >> 24) & 0xff) as u8,
    ];
    assert(bytes@ =~= le_bytes(word));
    bytes
}

/// Joins four little-endian bytes into a word.
pub fn word_from_le(b0: u8, b1: u8, b2: u8, b3: u8) -> (word: u32)
    ensures
        word == le_word(b0, b1, b2, b3),
{
    (b0 as u32) | ((b1 as u32) << 8) | ((b2 as u32) << 16) | ((b3 as u32) << 24)
}

pub enum NumericType {
    Uint8,
    Float32,
}

} // verus!
