use vstd::prelude::*;
use crate::memory::address_space::AddressSpace;
use crate::memory::cartridge::{rom_title, title_of};
use crate::memory::{bytes_to_word, word_to_bytes};

verus! {

/// An image as it was read, of any length.
pub struct Memory {
    pub rom: Vec<u8>,
}

impl Memory {
    /// Holds `rom` as it is.
    pub fn new(rom: Vec<u8>) -> (memory: Self)
        ensures
            memory.rom@ == rom@,
    {
        Self { rom }
    }

    /// The title that the image carries, if it is long enough to hold one
    /// and its title bytes are text.
    pub fn get_rom_title(&self) -> (title: Option<&str>)
        ensures
            title is Some <==> title_of(self.rom@) is Some,
            title is Some ==> title->Some_0@ == title_of(self.rom@)->Some_0,
    {
        rom_title(self.rom.as_slice())
    }
}

/// A flat store of bytes that answers for the addresses inside it.
pub struct Rom {
    data: Vec<u8>,
}

impl View for Rom {
    type V = Seq<u8>;

    closed spec fn view(&self) -> Seq<u8> {
        self.data@
    }
}

impl Rom {
    /// A store that holds `data`.
    pub fn new(data: Vec<u8>) -> (rom: Self)
        ensures
            rom@ == data@,
    {
        Self { data }
    }
}

impl AddressSpace for Rom {
    open spec fn contents(&self) -> Seq<u8> {
        self@
    }

    open spec fn covers(contents: Seq<u8>, address: u16) -> bool {
        (address as int) < contents.len()
    }

    open spec fn read(contents: Seq<u8>, address: u16) -> u8 {
        contents[address as int]
    }

    open spec fn write(contents: Seq<u8>, address: u16, value: u8) -> Seq<u8> {
        contents.update(address as int, value)
    }

    fn get(&self, address: u16) -> (value: u8) {
        self.data[address as usize]
    }

    fn set(&mut self, address: u16, value: u8) {
        self.data[address as usize] = value;
    }

    fn get_word(&self, address: u16) -> (value: u16) {
        let l: u8 = self.get(address);
        let h: u8 = self.get(address.wrapping_add(1));
        bytes_to_word(h, l)
    }

    fn set_word(&mut self, address: u16, value: u16) {
        let (h, l) = word_to_bytes(value);
        self.set(address, l);
        self.set(address.wrapping_add(1), h);
    }
}

} // verus!
