use vstd::prelude::*;
use crate::cpu::cb_prefix::extended_step;
use crate::cpu::cpu::{Cpu, CpuState};
use crate::cpu::flags::Flags;
use crate::cpu::register::{dec16, dec8, inc16, Reg16, Reg8};
use crate::memory::address_space::AddressSpace;

verus! {

/// The number of clock cycles that an instruction is charged.
pub type Cycles = u8;

/// The opcode that introduces an opcode of the extended table.
pub const PREFIX: u8 = 0xCB;

/// What is done to the register that held the address, after the access
/// through it. Every instruction that moves the register uses HL.
#[derive(Debug, Clone, Copy, PartialEq, Eq, Structural)]
pub enum HLAction {
    /// The register moves up by one, wrapping.
    Inc,
    /// The register moves down by one, wrapping.
    Dec,
    /// The register stays.
    Keep,
}

/// The place that an instruction writes to.
#[derive(Debug, Clone, Copy, PartialEq, Eq, Structural)]
pub enum Target {
    /// The address in the I/O page with this low byte.
    Address8(u8),
    /// This address.
    Address16(u16),
    /// An 8-bit register.
    Register8(Reg8),
    /// A 16-bit register.
    Register16(Reg16),
    /// The address in a 16-bit register.
    RegisterAddress16(Reg16),
}

/// An opcode that neither table has an instruction for.
#[derive(Debug, Clone, Copy, PartialEq, Eq, Structural)]
pub enum Fault {
    /// `opcode` was met in the primary table.
    Unimplemented { opcode: u8 },
    /// `opcode` was met in the extended table, behind `prefix`.
    UnimplementedExtended { prefix: u8, opcode: u8 },
}

/// What one instruction does: the machine that it leaves and the cycles that
/// it is charged.
pub struct Step {
    pub state: CpuState,
    pub cycles: Cycles,
}

/// The signed displacement that a byte stands for, in two's complement.
pub open spec fn displacement(byte: u8) -> int {
    if byte < 0x80 {
        byte as int
    } else {
        byte as int - 0x100
    }
}

/// The address `displacement(byte)` away from `pc`, wrapping at both ends of
/// the address range.
pub open spec fn relative_target(pc: u16, byte: u8) -> u16 {
    let target = pc as int + displacement(byte);
    if target > 0xFFFF {
        (target - 0x10000) as u16
    } else if target < 0 {
        (target + 0x10000) as u16
    } else {
        target as u16
    }
}

/// The address in the I/O page whose low byte is `offset`.
pub open spec fn io_address(offset: u8) -> u16 {
    0xFF00u16 | (offset as u16)
}

/// The difference `a - b` in 8 bits, wrapping below zero.
pub open spec fn sub8(a: u8, b: u8) -> u8 {
    if a < b {
        (a - b + 0x100) as u8
    } else {
        (a - b) as u8
    }
}

/// Whether `a - b` borrows out of bit 4: the low nibble of `a` is less than
/// that of `b`.
pub open spec fn sub_half_carry(a: u8, b: u8) -> bool {
    (a & 0xF) < (b & 0xF)
}

/// The flags that a subtraction `a - b` leaves, whose Carry is `carry`.
pub open spec fn sub_flags(a: u8, b: u8, carry: bool) -> Flags {
    Flags { zero: sub8(a, b) == 0, sub: true, half_carry: sub_half_carry(a, b), carry }
}

/// An absolute jump: the word at the program counter is consumed, and it
/// becomes the program counter where `condition` holds.
pub open spec fn jp_a16_step(s: CpuState, condition: bool) -> Step {
    if condition {
        Step { state: s.set16(Reg16::PC, s.immediate16()), cycles: 16 }
    } else {
        Step { state: s.skip16(), cycles: 12 }
    }
}

/// A relative jump: the byte at the program counter is consumed, and where
/// `condition` holds the program counter moves by the displacement that the
/// byte stands for, counted from behind the byte.
pub open spec fn jr_r8_step(s: CpuState, condition: bool) -> Step {
    if condition {
        Step {
            state: s.set16(Reg16::PC, relative_target(inc16(s.pc), s.immediate8())),
            cycles: 12,
        }
    } else {
        Step { state: s.skip8(), cycles: 8 }
    }
}

/// A register exclusive-or'ed with itself: the register is cleared, Zero is
/// set and the other flags are cleared.
pub open spec fn xor_r_step(s: CpuState, register: Reg8) -> Step {
    Step {
        state: CpuState {
            flags: Flags { zero: true, sub: false, half_carry: false, carry: false },
            ..s.set8(register, 0)
        },
        cycles: 4,
    }
}

/// A 16-bit register loaded with the word at the program counter.
pub open spec fn ld_rr_d16_step(s: CpuState, register: Reg16) -> Step {
    Step { state: s.skip16().set16(register, s.immediate16()), cycles: 12 }
}

/// An 8-bit register loaded with the byte at the program counter.
pub open spec fn ld_r_d8_step(s: CpuState, register: Reg8) -> Step {
    Step { state: s.skip8().set8(register, s.immediate8()), cycles: 8 }
}

/// A byte stored at the address in a 16-bit register, which is then moved
/// as `action` says.
pub open spec fn ld_a16_r_step(
    s: CpuState,
    register: Reg16,
    value: u8,
    action: HLAction,
) -> Step {
    let address = s.get16(register);
    let stored = s.store(address, value);
    Step {
        state: match action {
            HLAction::Inc => stored.set16(register, inc16(address)),
            HLAction::Dec => stored.set16(register, dec16(address)),
            HLAction::Keep => stored,
        },
        cycles: 8,
    }
}

/// An 8-bit register decremented. Carry is left alone.
pub open spec fn dec_r_step(s: CpuState, register: Reg8) -> Step {
    let value = s.get8(register);
    Step {
        state: CpuState {
            flags: sub_flags(value, 1, s.flags.carry),
            ..s.set8(register, dec8(value))
        },
        cycles: 4,
    }
}

/// A transfer through the I/O page. With an address as target, `value` is
/// stored at that address of the page. With a register as target, the
/// register is loaded from the address of the page whose low byte is `value`.
pub open spec fn io_transfer(s: CpuState, target: Target, value: u8) -> CpuState {
    match target {
        Target::Address8(address) => s.store(io_address(address), value),
        Target::Register8(register) => s.set8(register, s.load(io_address(value))),
        _ => s,
    }
}

/// Register A compared with `value`: the flags of `A - value`, and A left
/// alone.
pub open spec fn cp_d8_step(s: CpuState, value: u8) -> Step {
    Step { state: CpuState { flags: sub_flags(s.a, value, s.a < value), ..s }, cycles: 8 }
}

/// What the instruction `opcode` of the primary table does to the machine
/// `s`, whose program counter stands behind the opcode.
pub open spec fn decode_step(s: CpuState, opcode: u8) -> Result<Step, Fault> {
    match opcode {
        0x00 => Ok(Step { state: s, cycles: 4 }),
        0xCB => extended_step(s.skip8(), s.immediate8()),
        0xF3 => Ok(Step { state: s, cycles: 4 }),
        0xFB => Ok(Step { state: s, cycles: 4 }),
        0xC2 => Ok(jp_a16_step(s, !s.flags.zero)),
        0xD2 => Ok(jp_a16_step(s, !s.flags.carry)),
        0xC3 => Ok(jp_a16_step(s, true)),
        0xCA => Ok(jp_a16_step(s, s.flags.zero)),
        0xDA => Ok(jp_a16_step(s, s.flags.carry)),
        0x20 => Ok(jr_r8_step(s, !s.flags.zero)),
        0x30 => Ok(jr_r8_step(s, !s.flags.carry)),
        0x18 => Ok(jr_r8_step(s, true)),
        0x28 => Ok(jr_r8_step(s, s.flags.zero)),
        0x38 => Ok(jr_r8_step(s, s.flags.carry)),
        0xAF => Ok(xor_r_step(s, Reg8::A)),
        0x01 => Ok(ld_rr_d16_step(s, Reg16::BC)),
        0x11 => Ok(ld_rr_d16_step(s, Reg16::DE)),
        0x21 => Ok(ld_rr_d16_step(s, Reg16::HL)),
        0x31 => Ok(ld_rr_d16_step(s, Reg16::SP)),
        0x05 => Ok(dec_r_step(s, Reg8::B)),
        0x15 => Ok(dec_r_step(s, Reg8::D)),
        0x25 => Ok(dec_r_step(s, Reg8::H)),
        0x0D => Ok(dec_r_step(s, Reg8::C)),
        0x1D => Ok(dec_r_step(s, Reg8::E)),
        0x2D => Ok(dec_r_step(s, Reg8::L)),
        0x3D => Ok(dec_r_step(s, Reg8::A)),
        0x06 => Ok(ld_r_d8_step(s, Reg8::B)),
        0x16 => Ok(ld_r_d8_step(s, Reg8::D)),
        0x26 => Ok(ld_r_d8_step(s, Reg8::H)),
        0x0E => Ok(ld_r_d8_step(s, Reg8::C)),
        0x1E => Ok(ld_r_d8_step(s, Reg8::E)),
        0x2E => Ok(ld_r_d8_step(s, Reg8::L)),
        0x3E => Ok(ld_r_d8_step(s, Reg8::A)),
        0x02 => Ok(ld_a16_r_step(s, Reg16::BC, s.a, HLAction::Keep)),
        0x12 => Ok(ld_a16_r_step(s, Reg16::DE, s.a, HLAction::Keep)),
        0x22 => Ok(ld_a16_r_step(s, Reg16::HL, s.a, HLAction::Inc)),
        0x32 => Ok(ld_a16_r_step(s, Reg16::HL, s.a, HLAction::Dec)),
        0x71 => Ok(ld_a16_r_step(s, Reg16::HL, s.c, HLAction::Keep)),
        0xE0 => Ok(
            Step {
                state: io_transfer(s.skip8(), Target::Address8(s.immediate8()), s.a),
                cycles: 12,
            },
        ),
        0xF0 => Ok(
            Step {
                state: io_transfer(s.skip8(), Target::Register8(Reg8::A), s.immediate8()),
                cycles: 12,
            },
        ),
        0xE2 => Ok(Step { state: io_transfer(s, Target::Address8(s.c), s.a), cycles: 8 }),
        0xF2 => Ok(Step { state: io_transfer(s, Target::Register8(Reg8::A), s.c), cycles: 8 }),
        0xFE => Ok(cp_d8_step(s.skip8(), s.immediate8())),
        _ => Err(Fault::Unimplemented { opcode }),
    }
}

/// What one whole instruction does to the machine `s`: the opcode at the
/// program counter is fetched and the instruction that it selects is run.
pub open spec fn execute_step(s: CpuState) -> Result<Step, Fault> {
    decode_step(s.skip8(), s.immediate8())
}

/// After a decrement, Zero says whether the register holds zero, Subtract
/// is set, HalfCarry says whether the low nibble was zero before, and Carry
/// is what it was.
pub proof fn lemma_dec_r_flags(s: CpuState, register: Reg8)
    requires
        register != Reg8::F,
    ensures
        ({
            let r = s.get8(register);
            let after = dec_r_step(s, register).state;
            &&& after.get8(register) == dec8(r)
            &&& after.flags.zero == (after.get8(register) == 0)
            &&& after.flags.zero == (r == 1)
            &&& after.flags.sub
            &&& after.flags.half_carry == (r & 0xF == 0)
            &&& after.flags.carry == s.flags.carry
        }),
{
    let r = s.get8(register);
    assert(((r & 0xF) < (1u8 & 0xF)) == (r & 0xF == 0)) by (bit_vector);
}

/// A comparison changes nothing but the flags: register A, the other
/// registers and the memory are what they were. Carry says whether A is
/// less than the value, Zero whether the two are equal, and Subtract is set.
pub proof fn lemma_cp_d8_flags(s: CpuState, value: u8)
    ensures
        ({
            let after = cp_d8_step(s, value).state;
            &&& after == CpuState { flags: after.flags, ..s }
            &&& after.a == s.a
            &&& after.flags.carry == (s.a < value)
            &&& after.flags.zero == (s.a == value)
            &&& after.flags.sub
            &&& after.flags.half_carry == ((s.a & 0xF) < (value & 0xF))
        }),
{
}

/// A displacement of zero leaves the address alone, and the displacements
/// of a byte and of its two's complement undo each other.
pub proof fn lemma_relative_target(pc: u16, byte: u8)
    ensures
        relative_target(pc, 0) == pc,
        -128 <= displacement(byte) <= 127,
        byte != 0x80 ==> relative_target(relative_target(pc, byte), sub8(0, byte)) == pc,
{
}

/// An address of the I/O page lies in the page, at the offset it was made of.
pub proof fn lemma_io_address(offset: u8)
    ensures
        io_address(offset) == 0xFF00 + offset,
        io_address(offset) >= 0xFF00,
{
    assert(0xFF00u16 | (offset as u16) == 0xFF00 + offset) by (bit_vector);
}

/// A fault names the opcode that was fetched: the byte at the program
/// counter, or, behind the prefix, the byte that follows it, which then
/// belongs to the groups of rotations and shifts.
pub proof fn lemma_fault_names_the_opcode(s: CpuState)
    ensures
        match execute_step(s) {
            Ok(_) => true,
            Err(Fault::Unimplemented { opcode }) => opcode == s.immediate8() && opcode != PREFIX,
            Err(Fault::UnimplementedExtended { prefix, opcode }) => {
                &&& prefix == PREFIX
                &&& s.immediate8() == PREFIX
                &&& opcode == s.skip8().immediate8()
                &&& opcode < 0x40
            },
        },
{
}

/// Whether subtracting `b` from `a` borrows out of bit 4.
pub fn is_sub_half_carry(a: u8, b: u8) -> (borrow: bool)
    ensures
        borrow == sub_half_carry(a, b),
{
    (a & 0xF) < (b & 0xF)
}

impl<'a> Cpu<'a> {
    /// `JP a16` and `JP cc, a16`: jumps to the word at the program counter
    /// where `condition` holds. 16 cycles taken, 12 not taken.
    pub fn jp_a16(&mut self, condition: bool) -> (cycles: Cycles)
        ensures
            final(self)@ == jp_a16_step(old(self)@, condition).state,
            cycles == jp_a16_step(old(self)@, condition).cycles,
            *final(final(self).mmu) == *final(old(self).mmu),
    {
        let next: u16 = self.read_word();

        if condition {
            self.pc.set(next);
            16
        } else {
            12
        }
    }

    /// `JR r8` and `JR cc, r8`: moves the program counter by the signed byte
    /// at the program counter where `condition` holds. 12 cycles taken, 8
    /// not taken.
    pub fn jr_r8(&mut self, condition: bool) -> (cycles: Cycles)
        ensures
            final(self)@ == jr_r8_step(old(self)@, condition).state,
            cycles == jr_r8_step(old(self)@, condition).cycles,
            *final(final(self).mmu) == *final(old(self).mmu),
    {
        let value: u8 = self.read_byte();

        if condition {
            let pc: u16 = self.pc.value();
            let address: u16 = if value < 0x80 {
                pc.wrapping_add(value as u16)
            } else {
                pc.wrapping_sub(0x100 - value as u16)
            };

            self.pc.set(address);

            12
        } else {
            8
        }
    }

    /// `XOR r`: exclusive-or of a register with itself. 4 cycles.
    pub fn xor_r(&mut self, target_register: Reg8) -> (cycles: Cycles)
        requires
            target_register != Reg8::F,
        ensures
            final(self)@ == xor_r_step(old(self)@, target_register).state,
            cycles == 4,
            *final(final(self).mmu) == *final(old(self).mmu),
    {
        let reg = self.get_r(target_register);
        let value: u8 = reg.value();
        assert(value ^ value == 0) by (bit_vector);
        reg.set(value ^ value);
        let result: u8 = reg.value();

        self.flags.zero = result == 0;
        self.flags.carry = false;
        self.flags.half_carry = false;
        self.flags.sub = false;

        4
    }

    /// `LD rr, d16`: loads a 16-bit register with the word at the program
    /// counter. 12 cycles.
    pub fn ld_rr_d16(&mut self, target_register: Reg16) -> (cycles: Cycles)
        ensures
            final(self)@ == ld_rr_d16_step(old(self)@, target_register).state,
            cycles == 12,
            *final(final(self).mmu) == *final(old(self).mmu),
    {
        let value: u16 = self.read_word();
        self.set_r16(target_register, value);

        12
    }

    /// `LD r, d8`: loads an 8-bit register with the byte at the program
    /// counter. 8 cycles.
    pub fn ld_r_d8(&mut self, target_register: Reg8) -> (cycles: Cycles)
        ensures
            final(self)@ == ld_r_d8_step(old(self)@, target_register).state,
            cycles == 8,
            *final(final(self).mmu) == *final(old(self).mmu),
    {
        let value: u8 = self.read_byte();
        self.set_r8(target_register, value);

        8
    }

    /// `LD (rr), r`, `LD (HL+), A` and `LD (HL-), A`: stores `value` at the
    /// address in a 16-bit register, then moves that register as `action`
    /// says. 8 cycles.
    pub fn ld_a16_r(
        &mut self,
        address_register: Reg16,
        value: u8,
        action: HLAction,
    ) -> (cycles: Cycles)
        ensures
            final(self)@ == ld_a16_r_step(old(self)@, address_register, value, action).state,
            cycles == 8,
            *final(final(self).mmu) == *final(old(self).mmu),
    {
        let register_value: u16 = self.get_r16(address_register);
        self.mmu.set(register_value, value);

        match action {
            HLAction::Inc => {
                self.set_r16(address_register, register_value.wrapping_add(1))
            },
            HLAction::Dec => {
                self.set_r16(address_register, register_value.wrapping_sub(1))
            },
            HLAction::Keep => {},
        }

        8
    }

    /// `DEC r`: decrements an 8-bit register. Zero says whether the result
    /// is zero, Subtract is set, HalfCarry says whether the low nibble
    /// borrowed, and Carry is left alone. 4 cycles.
    pub fn dec_r(&mut self, target_register: Reg8) -> (cycles: Cycles)
        requires
            target_register != Reg8::F,
        ensures
            final(self)@ == dec_r_step(old(self)@, target_register).state,
            final(self).flags.zero == (final(self)@.get8(target_register) == 0),
            final(self).flags.sub,
            final(self).flags.half_carry == (old(self)@.get8(target_register) & 0xF == 0),
            cycles == 4,
            *final(final(self).mmu) == *final(old(self).mmu),
    {
        proof {
            lemma_dec_r_flags(self@, target_register);
        }
        let reg = self.get_r(target_register);
        let before: u8 = reg.value();
        let half_carry: bool = is_sub_half_carry(before, 1);
        let (result, _) = reg.dec();

        self.flags.sub = true;
        self.flags.zero = result == 0;
        self.flags.half_carry = half_carry;

        4
    }

    /// `LDH (a8), A` and `LDH A, (a8)`: a transfer through the I/O page at
    /// an offset that the instruction carries. 12 cycles.
    pub fn ldh_a_a8(&mut self, target: Target, value: u8) -> (cycles: Cycles)
        requires
            target is Address8 || target is Register8,
        ensures
            final(self)@ == io_transfer(old(self)@, target, value),
            cycles == 12,
            *final(final(self).mmu) == *final(old(self).mmu),
    {
        self.transfer(target, value);

        12
    }

    /// `LD (C), A` and `LD A, (C)`: a transfer through the I/O page at the
    /// offset in a register. 8 cycles.
    pub fn ld_c_a(&mut self, target: Target, value: u8) -> (cycles: Cycles)
        requires
            target is Address8 || target is Register8,
        ensures
            final(self)@ == io_transfer(old(self)@, target, value),
            cycles == 8,
            *final(final(self).mmu) == *final(old(self).mmu),
    {
        self.transfer(target, value);

        8
    }

    /// The transfer through the I/O page that both forms share.
    fn transfer(&mut self, target: Target, value: u8)
        requires
            target is Address8 || target is Register8,
        ensures
            final(self)@ == io_transfer(old(self)@, target, value),
            *final(final(self).mmu) == *final(old(self).mmu),
    {
        match target {
            Target::Address8(address) => self.mmu.set(0xFF00 | address as u16, value),
            Target::Register8(reg) => {
                let loaded: u8 = self.mmu.get(0xFF00 | value as u16);
                self.set_r8(reg, loaded);
            },
            _ => {},
        }
    }

    /// `CP d8`: compares register A with `value`. The flags are those of
    /// `A - value`, Carry saying whether A is the smaller, and A keeps its
    /// value. 8 cycles.
    pub fn cp_d8(&mut self, value: u8) -> (cycles: Cycles)
        ensures
            final(self)@ == cp_d8_step(old(self)@, value).state,
            final(self)@.a == old(self)@.a,
            final(self).flags.carry == (old(self)@.a < value),
            cycles == 8,
            *final(final(self).mmu) == *final(old(self).mmu),
    {
        let a: u8 = self.a.value();
        let result: u8 = a.wrapping_sub(value);
        let overflow: bool = a < value;

        self.flags.zero = result == 0;
        self.flags.sub = true;
        self.flags.carry = overflow;
        self.flags.half_carry = is_sub_half_carry(a, value);

        8
    }

    /// Runs the instruction that `opcode` selects in the primary table, the
    /// program counter standing behind the opcode. Where no instruction
    /// stands for the opcode, the machine is left as it was and the fault
    /// says which opcode it was.
    pub fn decode(&mut self, opcode: u8) -> (outcome: Result<Cycles, Fault>)
        ensures
            match decode_step(old(self)@, opcode) {
                Ok(step) => outcome == Ok::<Cycles, Fault>(step.cycles)
                    && final(self)@ == step.state,
                Err(fault) => outcome == Err::<Cycles, Fault>(fault)
                    && final(self)@ == old(self)@,
            },
            *final(final(self).mmu) == *final(old(self).mmu),
    {
        let zero: bool = self.flags.zero;
        let carry: bool = self.flags.carry;
        let a: u8 = self.a.value();
        let c: u8 = self.c.value();
        match opcode {
            0x00 => Ok(4),
            0xCB => {
                let behind: u16 = self.pc.value();
                let cb_opcode: u8 = self.read_byte();
                let outcome = self.match_cb_prefix(cb_opcode);
                if outcome.is_err() {
                    self.pc.set(behind);
                }
                outcome
            },
            0xF3 => Ok(4),
            0xFB => Ok(4),
            0xC2 => Ok(self.jp_a16(!zero)),
            0xD2 => Ok(self.jp_a16(!carry)),
            0xC3 => Ok(self.jp_a16(true)),
            0xCA => Ok(self.jp_a16(zero)),
            0xDA => Ok(self.jp_a16(carry)),
            0x20 => Ok(self.jr_r8(!zero)),
            0x30 => Ok(self.jr_r8(!carry)),
            0x18 => Ok(self.jr_r8(true)),
            0x28 => Ok(self.jr_r8(zero)),
            0x38 => Ok(self.jr_r8(carry)),
            0xAF => Ok(self.xor_r(Reg8::A)),
            0x01 => Ok(self.ld_rr_d16(Reg16::BC)),
            0x11 => Ok(self.ld_rr_d16(Reg16::DE)),
            0x21 => Ok(self.ld_rr_d16(Reg16::HL)),
            0x31 => Ok(self.ld_rr_d16(Reg16::SP)),
            0x05 => Ok(self.dec_r(Reg8::B)),
            0x15 => Ok(self.dec_r(Reg8::D)),
            0x25 => Ok(self.dec_r(Reg8::H)),
            0x0D => Ok(self.dec_r(Reg8::C)),
            0x1D => Ok(self.dec_r(Reg8::E)),
            0x2D => Ok(self.dec_r(Reg8::L)),
            0x3D => Ok(self.dec_r(Reg8::A)),
            0x06 => Ok(self.ld_r_d8(Reg8::B)),
            0x16 => Ok(self.ld_r_d8(Reg8::D)),
            0x26 => Ok(self.ld_r_d8(Reg8::H)),
            0x0E => Ok(self.ld_r_d8(Reg8::C)),
            0x1E => Ok(self.ld_r_d8(Reg8::E)),
            0x2E => Ok(self.ld_r_d8(Reg8::L)),
            0x3E => Ok(self.ld_r_d8(Reg8::A)),
            0x02 => Ok(self.ld_a16_r(Reg16::BC, a, HLAction::Keep)),
            0x12 => Ok(self.ld_a16_r(Reg16::DE, a, HLAction::Keep)),
            0x22 => Ok(self.ld_a16_r(Reg16::HL, a, HLAction::Inc)),
            0x32 => Ok(self.ld_a16_r(Reg16::HL, a, HLAction::Dec)),
            0x71 => Ok(self.ld_a16_r(Reg16::HL, c, HLAction::Keep)),
            0xE0 => {
                let address: u8 = self.read_byte();
                Ok(self.ldh_a_a8(Target::Address8(address), a))
            },
            0xF0 => {
                let value: u8 = self.read_byte();
                Ok(self.ldh_a_a8(Target::Register8(Reg8::A), value))
            },
            0xE2 => Ok(self.ld_c_a(Target::Address8(c), a)),
            0xF2 => Ok(self.ld_c_a(Target::Register8(Reg8::A), c)),
            0xFE => {
                let value: u8 = self.read_byte();
                Ok(self.cp_d8(value))
            },
            _ => Err(Fault::Unimplemented { opcode }),
        }
    }

    /// Fetches the opcode at the program counter and runs the instruction
    /// that it selects. Returns the cycles that the instruction is charged.
    /// Where no instruction stands for the opcode, the machine is left as it
    /// was before the fetch, so that the program counter still points at the
    /// opcode, and the fault says which opcode it was.
    pub fn execute(&mut self) -> (outcome: Result<Cycles, Fault>)
        ensures
            match execute_step(old(self)@) {
                Ok(step) => outcome == Ok::<Cycles, Fault>(step.cycles)
                    && final(self)@ == step.state,
                Err(fault) => outcome == Err::<Cycles, Fault>(fault)
                    && final(self)@ == old(self)@,
            },
            *final(final(self).mmu) == *final(old(self).mmu),
    {
        let at: u16 = self.pc.value();
        let opcode: u8 = self.read_byte();
        let outcome = self.decode(opcode);
        if outcome.is_err() {
            self.pc.set(at);
        }
        outcome
    }
}

} // verus!
