//! The two bytes of a 16-bit word.
//!
//! A word is stored as two bytes, most significant first.

use vstd::prelude::*;

verus! {

/// The word whose most significant byte is `high` and whose least
/// significant byte is `low`.
pub open spec fn word_of(high: u8, low: u8) -> u16 {
    (high * 256 + low) as u16
}

/// The most significant byte of `word`.
pub open spec fn high_byte(word: u16) -> u8 {
    (word / 256) as u8
}

/// The least significant byte of `word`.
pub open spec fn low_byte(word: u16) -> u8 {
    (word % 256) as u8
}

/// Joins two bytes into a word, `high` first.
pub fn join_bytes(high: u8, low: u8) -> (word: u16)
    ensures
        word == word_of(high, low),
{
    let word: u16 = ((high as u16) << 8) | (low as u16);
    assert(((high as u16) << 8) | (low as u16) == (high as u16) * 256 + (low as u16))
        by (bit_vector);
    word
}

/// Splits a word into its bytes, most significant first.
pub fn split_word(word: u16) -> (bytes: (u8, u8))
    ensures
        bytes.0 == high_byte(word),
        bytes.1 == low_byte(word),
{
    let high: u8 = ((word & 0xFF00) >> 8) as u8;
    let low: u8 = (word & 0x00FF) as u8;
    assert(((word & 0xFF00) >> 8) == word / 256) by (bit_vector);
    assert((word & 0x00FF) == word % 256) by (bit_vector);
    (high, low)
}

/// Splitting a word and joining the bytes again gives the word back.
pub proof fn lemma_join_split(word: u16)
    ensures
        word_of(high_byte(word), low_byte(word)) == word,
{
}

/// Joining two bytes and splitting the word again gives the bytes back.
pub proof fn lemma_split_join(high: u8, low: u8)
    ensures
        high_byte(word_of(high, low)) == high,
        low_byte(word_of(high, low)) == low,
{
}

} // verus!
