use vstd::prelude::*;
use crate::memory::{high_byte, low_byte, word_of};

verus! {

/// Splits a word into its high and its low byte, in that order.
pub fn split_word(word: u16) -> (halves: (u8, u8))
    ensures
        halves.0 == high_byte(word),
        halves.1 == low_byte(word),
{
    assert((word & 0xFF) as u8 == word as u8) by (bit_vector);
    let h: u8 = (word >> 8) as u8;
    let l: u8 = word as u8;
    (h, l)
}

/// Joins a high and a low byte into a word.
pub fn get_word_from_bytes(h: u8, l: u8) -> (word: u16)
    ensures
        word == word_of(h, l),
{
    ((h as u16) << 8) | (l as u16)
}

} // verus!
