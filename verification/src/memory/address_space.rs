use vstd::prelude::*;
use crate::memory::{high_byte, low_byte, word_of};

verus! {

/// The address that follows `address`; the last address is followed by the first.
pub open spec fn next_address(address: u16) -> u16 {
    if address == 0xFFFF {
        0
    } else {
        (address + 1) as u16
    }
}

/// A byte-addressable store indexed by 16-bit addresses.
///
/// An implementor says which bytes it holds (`contents`), which addresses it
/// answers for (`covers`), and what a read returns and a write changes
/// (`read`, `write`). The four access methods are held to those functions. A
/// word is two consecutive bytes, the low byte at the lower address.
pub trait AddressSpace {
    /// The bytes that the store holds.
    spec fn contents(&self) -> Seq<u8>;

    /// Whether a store holding `contents` answers for `address`.
    spec fn covers(contents: Seq<u8>, address: u16) -> bool;

    /// The byte that a store holding `contents` returns for `address`.
    spec fn read(contents: Seq<u8>, address: u16) -> u8;

    /// What a store holding `contents` holds after `value` was written to `address`.
    spec fn write(contents: Seq<u8>, address: u16, value: u8) -> Seq<u8>;

    /// Reads the byte at `address`.
    fn get(&self, address: u16) -> (value: u8)
        requires
            Self::covers(self.contents(), address),
        ensures
            value == Self::read(self.contents(), address),
    ;

    /// Writes `value` to `address`.
    fn set(&mut self, address: u16, value: u8)
        requires
            Self::covers(old(self).contents(), address),
        ensures
            final(self).contents() == Self::write(old(self).contents(), address, value),
    ;

    /// Reads the word whose low byte is at `address` and whose high byte is
    /// at the address that follows.
    fn get_word(&self, address: u16) -> (value: u16)
        requires
            Self::covers(self.contents(), address),
            Self::covers(self.contents(), next_address(address)),
        ensures
            value == word_of(
                Self::read(self.contents(), next_address(address)),
                Self::read(self.contents(), address),
            ),
    ;

    /// Writes the low byte of `value` to `address`, then its high byte to the
    /// address that follows.
    fn set_word(&mut self, address: u16, value: u16)
        requires
            Self::covers(old(self).contents(), address),
            Self::covers(old(self).contents(), next_address(address)),
        ensures
            final(self).contents() == Self::write(
                Self::write(old(self).contents(), address, low_byte(value)),
                next_address(address),
                high_byte(value),
            ),
    ;
}

} // verus!
