//! The 16-bit address space: the byte/word codec, the address-space contract,
//! the cartridge image and the memory map that routes each access.

use vstd::prelude::*;

pub mod address_space;
pub mod cartridge;
pub mod memory;
pub mod mmu;

pub use address_space::AddressSpace;
pub use cartridge::{Cartridge, RomError};
pub use memory::{Memory, Rom};
pub use mmu::{Mmu, Region};

verus! {

/// The word whose high byte is `h` and whose low byte is `l`.
pub open spec fn word_of(h: u8, l: u8) -> u16 {
    ((h as u16) << 8) | (l as u16)
}

/// The high byte of `w`.
pub open spec fn high_byte(w: u16) -> u8 {
    (w >> 8) as u8
}

/// The low byte of `w`.
pub open spec fn low_byte(w: u16) -> u8 {
    (w & 0xFF) as u8
}

/// Converts two bytes to a single word, `h` being the high byte.
pub fn bytes_to_word(h: u8, l: u8) -> (w: u16)
    ensures
        w == word_of(h, l),
        w as int == h as int * 256 + l as int,
{
    assert((((h as u16) << 8) | (l as u16)) as int == h as int * 256 + l as int) by (bit_vector);
    ((h as u16) << 8) | (l as u16)
}

/// Converts a word into two bytes, the first of the pair being the high byte.
pub fn word_to_bytes(w: u16) -> (bytes: (u8, u8))
    ensures
        bytes.0 == high_byte(w),
        bytes.1 == low_byte(w),
        bytes.0 as int == w as int / 256,
        bytes.1 as int == w as int % 256,
{
    assert(((w >> 8) as u8) as int == w as int / 256) by (bit_vector);
    assert(((w & 0xFF) as u8) as int == w as int % 256) by (bit_vector);
    assert((w & 0xFF) as u8 == w as u8) by (bit_vector);
    let h: u8 = (w >> 8) as u8;
    let l: u8 = w as u8;
    (h, l)
}

/// Splitting a word and joining the halves gives the word back.
pub proof fn lemma_word_round_trip(w: u16)
    ensures
        word_of(high_byte(w), low_byte(w)) == w,
{
    assert(((((w >> 8) as u8) as u16) << 8) | (((w & 0xFF) as u8) as u16) == w) by (bit_vector);
}

/// Joining two bytes and splitting the word gives the bytes back.
pub proof fn lemma_bytes_round_trip(h: u8, l: u8)
    ensures
        high_byte(word_of(h, l)) == h,
        low_byte(word_of(h, l)) == l,
{
    assert(((((h as u16) << 8) | (l as u16)) >> 8) as u8 == h) by (bit_vector);
    assert(((((h as u16) << 8) | (l as u16)) & 0xFF) as u8 == l) by (bit_vector);
}

} // verus!
