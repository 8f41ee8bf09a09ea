use vstd::pervasive::unreached;
use vstd::prelude::*;
use crate::cpu::byteutils::{get_word_from_bytes, split_word};
use crate::cpu::flags::{lemma_pack_unpack, lemma_unpack_pack, pack, unpack, Flags};
use crate::cpu::register::{inc16, Reg16, Reg8, Register};
use crate::memory::address_space::AddressSpace;
use crate::memory::mmu::{mapped_read, mapped_read_word, mapped_write, Mmu};
use crate::memory::{high_byte, lemma_word_round_trip, low_byte, word_of};

verus! {

/// The machine as a value: the seven 8-bit registers that hold a byte of
/// their own, the stack pointer and the program counter, the flags, and the
/// bytes that the cartridge holds, which are all that the memory map stores.
/// The register F holds no byte of its own: it shows the flags.
pub struct CpuState {
    pub a: u8,
    pub b: u8,
    pub c: u8,
    pub d: u8,
    pub e: u8,
    pub h: u8,
    pub l: u8,
    pub sp: u16,
    pub pc: u16,
    pub flags: Flags,
    pub rom: Seq<u8>,
}

impl CpuState {
    /// The machine after power-up, over a cartridge that holds `rom`.
    pub open spec fn boot(rom: Seq<u8>) -> CpuState {
        CpuState {
            a: 0x01,
            b: 0x00,
            c: 0x13,
            d: 0x00,
            e: 0xD8,
            h: 0x01,
            l: 0x4D,
            sp: 0xFFFE,
            pc: 0x0100,
            flags: Flags::boot(),
            rom,
        }
    }

    /// The value of an 8-bit register. F shows the flags in its four high
    /// bits, and its four low bits are clear.
    pub open spec fn get8(self, register: Reg8) -> u8 {
        match register {
            Reg8::A => self.a,
            Reg8::F => pack(self.flags),
            Reg8::B => self.b,
            Reg8::C => self.c,
            Reg8::D => self.d,
            Reg8::E => self.e,
            Reg8::H => self.h,
            Reg8::L => self.l,
        }
    }

    /// The machine with `value` in an 8-bit register. Of a value written to
    /// F the four high bits become the flags, and the four low bits are lost.
    pub open spec fn set8(self, register: Reg8, value: u8) -> CpuState {
        match register {
            Reg8::A => CpuState { a: value, ..self },
            Reg8::F => CpuState { flags: unpack(value), ..self },
            Reg8::B => CpuState { b: value, ..self },
            Reg8::C => CpuState { c: value, ..self },
            Reg8::D => CpuState { d: value, ..self },
            Reg8::E => CpuState { e: value, ..self },
            Reg8::H => CpuState { h: value, ..self },
            Reg8::L => CpuState { l: value, ..self },
        }
    }

    /// The value of a 16-bit register. A pair is read off its two halves,
    /// the first-named register being the high byte.
    pub open spec fn get16(self, register: Reg16) -> u16 {
        match register {
            Reg16::AF => word_of(self.a, pack(self.flags)),
            Reg16::BC => word_of(self.b, self.c),
            Reg16::DE => word_of(self.d, self.e),
            Reg16::HL => word_of(self.h, self.l),
            Reg16::SP => self.sp,
            Reg16::PC => self.pc,
        }
    }

    /// The machine with `value` in a 16-bit register. Writing a pair writes
    /// both halves at once.
    pub open spec fn set16(self, register: Reg16, value: u16) -> CpuState {
        match register {
            Reg16::AF => CpuState { a: high_byte(value), flags: unpack(low_byte(value)), ..self },
            Reg16::BC => CpuState { b: high_byte(value), c: low_byte(value), ..self },
            Reg16::DE => CpuState { d: high_byte(value), e: low_byte(value), ..self },
            Reg16::HL => CpuState { h: high_byte(value), l: low_byte(value), ..self },
            Reg16::SP => CpuState { sp: value, ..self },
            Reg16::PC => CpuState { pc: value, ..self },
        }
    }

    /// The byte that the memory map returns for `address`.
    pub open spec fn load(self, address: u16) -> u8 {
        mapped_read(self.rom, address)
    }

    /// The machine after `value` was written to `address` through the memory map.
    pub open spec fn store(self, address: u16, value: u8) -> CpuState {
        CpuState { rom: mapped_write(self.rom, address, value), ..self }
    }

    /// The byte at the program counter.
    pub open spec fn immediate8(self) -> u8 {
        mapped_read(self.rom, self.pc)
    }

    /// The word at the program counter, low byte first.
    pub open spec fn immediate16(self) -> u16 {
        mapped_read_word(self.rom, self.pc)
    }

    /// The machine with the program counter moved past one byte.
    pub open spec fn skip8(self) -> CpuState {
        CpuState { pc: inc16(self.pc), ..self }
    }

    /// The machine with the program counter moved past two bytes.
    pub open spec fn skip16(self) -> CpuState {
        CpuState { pc: inc16(inc16(self.pc)), ..self }
    }
}

/// A 16-bit register other than AF reads back the value that was written to
/// it. A pair keeps the high byte of the value in its first register and the
/// low byte in its second, so that neither half can lag behind the other.
pub proof fn lemma_set16_get16(s: CpuState, register: Reg16, value: u16)
    requires
        register != Reg16::AF,
    ensures
        s.set16(register, value).get16(register) == value,
        register == Reg16::BC ==> s.set16(register, value).get8(Reg8::B) == value >> 8
            && s.set16(register, value).get8(Reg8::C) == value & 0xFF,
        register == Reg16::DE ==> s.set16(register, value).get8(Reg8::D) == value >> 8
            && s.set16(register, value).get8(Reg8::E) == value & 0xFF,
        register == Reg16::HL ==> s.set16(register, value).get8(Reg8::H) == value >> 8
            && s.set16(register, value).get8(Reg8::L) == value & 0xFF,
{
    lemma_word_round_trip(value);
    assert(((value >> 8) as u8) as u16 == value >> 8) by (bit_vector);
    assert(((value & 0xFF) as u8) as u16 == value & 0xFF) by (bit_vector);
}

/// The pair AF reads back the value that was written to it but for the four
/// low bits, which F does not hold: they read as zero. The high byte is in A,
/// and the flags are what the four high bits of the low byte stand for.
pub proof fn lemma_set16_get16_af(s: CpuState, value: u16)
    ensures
        s.set16(Reg16::AF, value).get16(Reg16::AF) == value & 0xFFF0,
        s.set16(Reg16::AF, value).get8(Reg8::A) == value >> 8,
        s.set16(Reg16::AF, value).get8(Reg8::F) == value & 0xF0,
        s.set16(Reg16::AF, value).flags == unpack(low_byte(value)),
        s.get16(Reg16::AF) & 0x000F == 0,
{
    let h = high_byte(value);
    let l = low_byte(value);
    lemma_pack_unpack(l);
    let f = pack(unpack(l));
    assert(((h as u16) << 8) | (f as u16) == value & 0xFFF0) by (bit_vector)
        requires
            h == (value >> 8) as u8,
            l == (value & 0xFF) as u8,
            f == l & 0xF0,
    ;
    assert(((value >> 8) as u8) as u16 == value >> 8) by (bit_vector);
    assert((((value & 0xFF) as u8) & 0xF0) as u16 == value & 0xF0) by (bit_vector);
    let a = s.a;
    let g = pack(s.flags);
    lemma_unpack_pack(s.flags);
    assert((((a as u16) << 8) | (g as u16)) & 0x000F == 0) by (bit_vector)
        requires
            g & 0x0F == 0,
    ;
}

/// Writing one half of a pair changes that half of the pair's value and
/// leaves the other half as it was.
pub proof fn lemma_set8_get16(s: CpuState, value: u8)
    ensures
        s.set8(Reg8::H, value).get16(Reg16::HL) == word_of(value, s.l),
        s.set8(Reg8::L, value).get16(Reg16::HL) == word_of(s.h, value),
        s.set8(Reg8::B, value).get16(Reg16::BC) == word_of(value, s.c),
        s.set8(Reg8::C, value).get16(Reg16::BC) == word_of(s.b, value),
        s.set8(Reg8::D, value).get16(Reg16::DE) == word_of(value, s.e),
        s.set8(Reg8::E, value).get16(Reg16::DE) == word_of(s.d, value),
        s.set8(Reg8::A, value).get16(Reg16::AF) == word_of(value, pack(s.flags)),
{
}

/// After power-up the pair AF reads `0x01B0`: F shows the flags Zero,
/// HalfCarry and Carry.
pub proof fn lemma_boot_af(rom: Seq<u8>)
    ensures
        CpuState::boot(rom).get8(Reg8::F) == 0xB0,
        CpuState::boot(rom).get16(Reg16::AF) == 0x01B0,
{
    assert(0x80u8 | 0u8 | 0x20u8 | 0x10u8 == 0xB0) by (bit_vector);
    assert(((0x01u8 as u16) << 8) | (0xB0u8 as u16) == 0x01B0) by (bit_vector);
}

/// The processor: the register file, the flags, and the memory map that it
/// holds for as long as it lives. The register F is the flags, packed.
pub struct Cpu<'a> {
    pub a: Register<u8>,
    pub b: Register<u8>,
    pub c: Register<u8>,
    pub d: Register<u8>,
    pub e: Register<u8>,
    pub h: Register<u8>,
    pub l: Register<u8>,
    pub sp: Register<u16>,
    pub pc: Register<u16>,
    pub flags: Flags,
    pub mmu: &'a mut Mmu,
}

impl<'a> View for Cpu<'a> {
    type V = CpuState;

    open spec fn view(&self) -> CpuState {
        CpuState {
            a: self.a@,
            b: self.b@,
            c: self.c@,
            d: self.d@,
            e: self.e@,
            h: self.h@,
            l: self.l@,
            sp: self.sp@,
            pc: self.pc@,
            flags: self.flags,
            rom: self.mmu@,
        }
    }
}

impl<'a> Cpu<'a> {
    /// A processor in its power-up state, over the memory map `mmu`.
    pub fn new(mmu: &'a mut Mmu) -> (cpu: Self)
        ensures
            cpu@ == CpuState::boot(old(mmu)@),
            *final(cpu.mmu) == *final(mmu),
    {
        Self {
            a: Register::new(0x01),
            b: Register::new(0x00),
            c: Register::new(0x13),
            d: Register::new(0x00),
            e: Register::new(0xD8),
            h: Register::new(0x01),
            l: Register::new(0x4D),
            sp: Register::new(0xFFFE),
            pc: Register::new(0x0100),
            flags: Flags::new(),
            mmu,
        }
    }

    /// Puts the registers and the flags back into their power-up state. The
    /// memory is left as it is.
    pub fn power_up(&mut self)
        ensures
            final(self)@ == CpuState::boot(old(self)@.rom),
            *final(final(self).mmu) == *final(old(self).mmu),
    {
        self.a.set(0x01);
        self.b.set(0x00);
        self.c.set(0x13);
        self.d.set(0x00);
        self.e.set(0xD8);
        self.h.set(0x01);
        self.l.set(0x4D);
        self.sp.set(0xFFFE);
        self.pc.set(0x0100);
        self.flags = Flags::new();
    }

    /// Reads the byte at the program counter and moves the program counter
    /// past it.
    pub fn read_byte(&mut self) -> (byte: u8)
        ensures
            byte == old(self)@.immediate8(),
            final(self)@ == old(self)@.skip8(),
            *final(final(self).mmu) == *final(old(self).mmu),
    {
        let b: u8 = self.mmu.get(self.pc.value());
        self.pc.inc();
        b
    }

    /// Reads the byte at the program counter and leaves the program counter
    /// where it is.
    pub fn peek_byte(&self) -> (byte: u8)
        ensures
            byte == self@.immediate8(),
    {
        self.mmu.get(self.pc.value())
    }

    /// Reads the word at the program counter, low byte first, and moves the
    /// program counter past both bytes.
    pub fn read_word(&mut self) -> (word: u16)
        ensures
            word == old(self)@.immediate16(),
            final(self)@ == old(self)@.skip16(),
            *final(final(self).mmu) == *final(old(self).mmu),
    {
        let w: u16 = self.mmu.get_word(self.pc.value());
        self.pc.inc();
        self.pc.inc();
        w
    }

    fn get_af(&self) -> (value: u16)
        ensures
            value == self@.get16(Reg16::AF),
    {
        get_word_from_bytes(self.a.value(), self.flags.to_byte())
    }

    fn get_bc(&self) -> (value: u16)
        ensures
            value == self@.get16(Reg16::BC),
    {
        get_word_from_bytes(self.b.value(), self.c.value())
    }

    fn get_hl(&self) -> (value: u16)
        ensures
            value == self@.get16(Reg16::HL),
    {
        get_word_from_bytes(self.h.value(), self.l.value())
    }

    fn get_de(&self) -> (value: u16)
        ensures
            value == self@.get16(Reg16::DE),
    {
        get_word_from_bytes(self.d.value(), self.e.value())
    }

    fn set_af(&mut self, value: u16)
        ensures
            final(self)@ == old(self)@.set16(Reg16::AF, value),
            *final(final(self).mmu) == *final(old(self).mmu),
    {
        let (h, l) = split_word(value);
        self.a.set(h);
        self.flags = Flags::from_byte(l);
    }

    fn set_bc(&mut self, value: u16)
        ensures
            final(self)@ == old(self)@.set16(Reg16::BC, value),
            *final(final(self).mmu) == *final(old(self).mmu),
    {
        let (h, l) = split_word(value);
        self.b.set(h);
        self.c.set(l);
    }

    fn set_hl(&mut self, value: u16)
        ensures
            final(self)@ == old(self)@.set16(Reg16::HL, value),
            *final(final(self).mmu) == *final(old(self).mmu),
    {
        let (h, l) = split_word(value);
        self.h.set(h);
        self.l.set(l);
    }

    fn set_de(&mut self, value: u16)
        ensures
            final(self)@ == old(self)@.set16(Reg16::DE, value),
            *final(final(self).mmu) == *final(old(self).mmu),
    {
        let (h, l) = split_word(value);
        self.d.set(h);
        self.e.set(l);
    }

    /// The value of an 8-bit register.
    pub fn get_r8(&self, target_register: Reg8) -> (value: u8)
        ensures
            value == self@.get8(target_register),
    {
        match target_register {
            Reg8::A => self.a.value(),
            Reg8::F => self.flags.to_byte(),
            Reg8::B => self.b.value(),
            Reg8::C => self.c.value(),
            Reg8::D => self.d.value(),
            Reg8::E => self.e.value(),
            Reg8::H => self.h.value(),
            Reg8::L => self.l.value(),
        }
    }

    /// Writes an 8-bit register.
    pub fn set_r8(&mut self, target_register: Reg8, value: u8)
        ensures
            final(self)@ == old(self)@.set8(target_register, value),
            *final(final(self).mmu) == *final(old(self).mmu),
    {
        match target_register {
            Reg8::F => {
                self.flags = Flags::from_byte(value);
            },
            _ => self.get_r(target_register).set(value),
        }
    }

    /// Hands out one of the 8-bit registers that hold a byte of their own:
    /// any but F, which is reached through the flags. Whatever the caller
    /// leaves in the register is its new value, and nothing else changes.
    pub fn get_r(&mut self, target_register: Reg8) -> (register: &mut Register<u8>)
        requires
            target_register != Reg8::F,
        ensures
            register@ == old(self)@.get8(target_register),
            final(self)@ == old(self)@.set8(target_register, final(register)@),
            *final(final(self).mmu) == *final(old(self).mmu),
    {
        match target_register {
            Reg8::A => &mut self.a,
            Reg8::F => unreached(),
            Reg8::B => &mut self.b,
            Reg8::C => &mut self.c,
            Reg8::D => &mut self.d,
            Reg8::E => &mut self.e,
            Reg8::H => &mut self.h,
            Reg8::L => &mut self.l,
        }
    }

    /// The value of a 16-bit register.
    pub fn get_r16(&self, target_register: Reg16) -> (value: u16)
        ensures
            value == self@.get16(target_register),
    {
        match target_register {
            Reg16::AF => self.get_af(),
            Reg16::BC => self.get_bc(),
            Reg16::DE => self.get_de(),
            Reg16::HL => self.get_hl(),
            Reg16::SP => self.sp.value(),
            Reg16::PC => self.pc.value(),
        }
    }

    /// Writes a 16-bit register.
    pub fn set_r16(&mut self, target_register: Reg16, value: u16)
        ensures
            final(self)@ == old(self)@.set16(target_register, value),
            *final(final(self).mmu) == *final(old(self).mmu),
    {
        match target_register {
            Reg16::AF => self.set_af(value),
            Reg16::BC => self.set_bc(value),
            Reg16::DE => self.set_de(value),
            Reg16::HL => self.set_hl(value),
            Reg16::SP => self.sp.set(value),
            Reg16::PC => self.pc.set(value),
        }
    }
}

} // verus!
