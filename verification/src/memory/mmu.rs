use vstd::prelude::*;
use crate::memory::address_space::{next_address, AddressSpace};
use crate::memory::cartridge::{Cartridge, ROM_REGION_SIZE};
use crate::memory::{
    bytes_to_word, high_byte, lemma_word_round_trip, low_byte, word_of, word_to_bytes,
};

verus! {

/// The regions of the memory map, from the lowest address to the highest.
#[derive(Debug, Clone, Copy, PartialEq, Eq, Structural)]
pub enum Region {
    /// `0x0000..=0x7FFF`: the cartridge's fixed and switchable banks.
    Rom,
    /// `0x8000..=0x9FFF`
    VideoRam,
    /// `0xA000..=0xBFFF`: the switchable RAM bank.
    ExternalRam,
    /// `0xC000..=0xDFFF`
    WorkRam,
    /// `0xE000..=0xFDFF`: the echo of the work RAM.
    EchoRam,
    /// `0xFE00..=0xFE9F`: the sprite attribute table.
    SpriteTable,
    /// `0xFEA0..=0xFEFF`
    Unusable,
    /// `0xFF00..=0xFF7F`
    IoRegisters,
    /// `0xFF80..=0xFFFE`
    HighRam,
    /// `0xFFFF`: the interrupt-enable register.
    InterruptEnable,
}

/// The byte that a read of a region without a backing store returns.
pub const UNATTACHED: u8 = 0x00;

/// The region that owns `address`.
pub open spec fn region_of(address: u16) -> Region {
    if address <= 0x7FFF {
        Region::Rom
    } else if address <= 0x9FFF {
        Region::VideoRam
    } else if address <= 0xBFFF {
        Region::ExternalRam
    } else if address <= 0xDFFF {
        Region::WorkRam
    } else if address <= 0xFDFF {
        Region::EchoRam
    } else if address <= 0xFE9F {
        Region::SpriteTable
    } else if address <= 0xFEFF {
        Region::Unusable
    } else if address <= 0xFF7F {
        Region::IoRegisters
    } else if address <= 0xFFFE {
        Region::HighRam
    } else {
        Region::InterruptEnable
    }
}

/// What the memory map returns for `address` when the cartridge holds `rom`:
/// the cartridge's byte in the ROM region, `UNATTACHED` everywhere else.
pub open spec fn mapped_read(rom: Seq<u8>, address: u16) -> u8 {
    if region_of(address) == Region::Rom {
        rom[address as int]
    } else {
        UNATTACHED
    }
}

/// What the cartridge holds after `value` was written to `address` through
/// the memory map: the write lands in the ROM region and is dropped
/// everywhere else.
pub open spec fn mapped_write(rom: Seq<u8>, address: u16, value: u8) -> Seq<u8> {
    if region_of(address) == Region::Rom {
        rom.update(address as int, value)
    } else {
        rom
    }
}

/// The word that the memory map returns for `address`.
pub open spec fn mapped_read_word(rom: Seq<u8>, address: u16) -> u16 {
    word_of(mapped_read(rom, next_address(address)), mapped_read(rom, address))
}

/// What the cartridge holds after the word `value` was written to `address`
/// through the memory map.
pub open spec fn mapped_write_word(rom: Seq<u8>, address: u16, value: u16) -> Seq<u8> {
    mapped_write(
        mapped_write(rom, address, low_byte(value)),
        next_address(address),
        high_byte(value),
    )
}

/// A byte written into the ROM region is the byte read back there; a byte
/// written anywhere else is dropped. A write changes what no other address
/// reads, and never the length of what the cartridge holds.
pub proof fn lemma_mapped_write_read(rom: Seq<u8>, address: u16, value: u8, other: u16)
    requires
        rom.len() >= ROM_REGION_SIZE,
    ensures
        mapped_write(rom, address, value).len() == rom.len(),
        region_of(address) == Region::Rom ==> mapped_read(
            mapped_write(rom, address, value),
            address,
        ) == value,
        region_of(address) != Region::Rom ==> mapped_write(rom, address, value) == rom
            && mapped_read(rom, address) == UNATTACHED,
        other != address ==> mapped_read(mapped_write(rom, address, value), other) == mapped_read(
            rom,
            other,
        ),
{
}

/// A word written where both of its bytes lie in the ROM region is the word
/// read back there.
pub proof fn lemma_mapped_word_round_trip(rom: Seq<u8>, address: u16, value: u16)
    requires
        rom.len() >= ROM_REGION_SIZE,
        address < 0x7FFF,
    ensures
        mapped_read_word(mapped_write_word(rom, address, value), address) == value,
{
    lemma_word_round_trip(value);
}

/// The memory map: it owns the cartridge and routes every access to the
/// region that owns the address.
pub struct Mmu {
    pub cartridge: Cartridge,
}

impl View for Mmu {
    type V = Seq<u8>;

    /// The only bytes that the memory map stores are the cartridge's.
    open spec fn view(&self) -> Seq<u8> {
        self.cartridge@
    }
}

impl Mmu {
    /// A memory map over `cartridge`, with no other region attached.
    pub fn new(cartridge: Cartridge) -> (mmu: Self)
        ensures
            mmu@ == cartridge@,
            mmu.cartridge == cartridge,
    {
        Self { cartridge }
    }

    /// Brings the memory to its power-up state.
    pub fn power_up(&mut self)
        ensures
            final(self)@ == old(self)@,
    {
        self.init_memory();
    }

    /// Writes the power-up values of the I/O registers and of the
    /// interrupt-enable register. Neither has a backing store, so the bytes
    /// that the memory map holds stay as they are.
    fn init_memory(&mut self)
        ensures
            final(self)@ == old(self)@,
    {
        self.set(0xFF05, 0x00);
        self.set(0xFF06, 0x00);
        self.set(0xFF07, 0x00);
        self.set(0xFF10, 0x80);
        self.set(0xFF11, 0xBF);
        self.set(0xFF12, 0xF3);
        self.set(0xFF14, 0xBF);
        self.set(0xFF16, 0x3F);
        self.set(0xFF17, 0x00);
        self.set(0xFF19, 0xBF);
        self.set(0xFF1A, 0x7F);
        self.set(0xFF1B, 0xFF);
        self.set(0xFF1C, 0x9F);
        self.set(0xFF1E, 0xBF);
        self.set(0xFF20, 0xFF);
        self.set(0xFF21, 0x00);
        self.set(0xFF22, 0x00);
        self.set(0xFF23, 0xBF);
        self.set(0xFF24, 0x77);
        self.set(0xFF25, 0xF3);
        self.set(0xFF26, 0xF1);
        self.set(0xFF40, 0x91);
        self.set(0xFF42, 0x00);
        self.set(0xFF43, 0x00);
        self.set(0xFF45, 0x00);
        self.set(0xFF47, 0xFC);
        self.set(0xFF48, 0xFF);
        self.set(0xFF49, 0xFF);
        self.set(0xFF4A, 0x00);
        self.set(0xFF4B, 0x00);
        self.set(0xFFFF, 0x00);
    }

    /// The region that owns `address`.
    pub fn region(address: u16) -> (region: Region)
        ensures
            region == region_of(address),
    {
        match address {
            0x0000..=0x7FFF => Region::Rom,
            0x8000..=0x9FFF => Region::VideoRam,
            0xA000..=0xBFFF => Region::ExternalRam,
            0xC000..=0xDFFF => Region::WorkRam,
            0xE000..=0xFDFF => Region::EchoRam,
            0xFE00..=0xFE9F => Region::SpriteTable,
            0xFEA0..=0xFEFF => Region::Unusable,
            0xFF00..=0xFF7F => Region::IoRegisters,
            0xFF80..=0xFFFE => Region::HighRam,
            0xFFFF => Region::InterruptEnable,
        }
    }
}

impl AddressSpace for Mmu {
    open spec fn contents(&self) -> Seq<u8> {
        self@
    }

    /// The memory map answers for every address.
    open spec fn covers(contents: Seq<u8>, address: u16) -> bool {
        true
    }

    open spec fn read(contents: Seq<u8>, address: u16) -> u8 {
        mapped_read(contents, address)
    }

    open spec fn write(contents: Seq<u8>, address: u16, value: u8) -> Seq<u8> {
        mapped_write(contents, address, value)
    }

    fn get(&self, address: u16) -> (value: u8) {
        proof {
            use_type_invariant(&self.cartridge);
        }
        match Self::region(address) {
            Region::Rom => self.cartridge.get(address),
            Region::VideoRam => UNATTACHED,
            Region::ExternalRam => UNATTACHED,
            Region::WorkRam => UNATTACHED,
            Region::EchoRam => UNATTACHED,
            Region::SpriteTable => UNATTACHED,
            Region::Unusable => UNATTACHED,
            Region::IoRegisters => UNATTACHED,
            Region::HighRam => UNATTACHED,
            Region::InterruptEnable => UNATTACHED,
        }
    }

    fn set(&mut self, address: u16, value: u8) {
        proof {
            use_type_invariant(&self.cartridge);
        }
        match Self::region(address) {
            Region::Rom => self.cartridge.set(address, value),
            Region::VideoRam => {},
            Region::ExternalRam => {},
            Region::WorkRam => {},
            Region::EchoRam => {},
            Region::SpriteTable => {},
            Region::Unusable => {},
            Region::IoRegisters => {},
            Region::HighRam => {},
            Region::InterruptEnable => {},
        }
    }

    fn get_word(&self, address: u16) -> (value: u16) {
        let l: u8 = self.get(address);
        let h: u8 = self.get(address.wrapping_add(1));
        bytes_to_word(h, l)
    }

    fn set_word(&mut self, address: u16, value: u16) {
        let (h, l) = word_to_bytes(value);
        self.set(address, l);
        self.set(address.wrapping_add(1), h);
    }
}

} // verus!
