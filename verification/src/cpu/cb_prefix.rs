use vstd::prelude::*;
use crate::cpu::cpu::{Cpu, CpuState};
use crate::cpu::flags::Flags;
use crate::cpu::instr::{Cycles, Fault, Step, PREFIX};
use crate::cpu::register::{Reg16, Reg8};
use crate::memory::address_space::AddressSpace;

verus! {

/// What an instruction of the extended table works on.
#[derive(Debug, Clone, Copy, PartialEq, Eq, Structural)]
pub enum Operand {
    /// An 8-bit register.
    Register(Reg8),
    /// The byte in memory at the address in a 16-bit register.
    RegisterAddress(Reg16),
}

/// The operand that the three low bits of an extended opcode select: B, C,
/// D, E, H, L, the byte at the address in HL, A.
pub open spec fn operand_of(opcode: u8) -> Operand {
    match opcode % 8 {
        0 => Operand::Register(Reg8::B),
        1 => Operand::Register(Reg8::C),
        2 => Operand::Register(Reg8::D),
        3 => Operand::Register(Reg8::E),
        4 => Operand::Register(Reg8::H),
        5 => Operand::Register(Reg8::L),
        6 => Operand::RegisterAddress(Reg16::HL),
        _ => Operand::Register(Reg8::A),
    }
}

/// The bit that an opcode of the group that starts at `base` names: the
/// eighth part of the opcode's distance from `base`.
pub open spec fn bit_index(opcode: u8, base: u8) -> u8
    recommends
        base <= opcode,
{
    ((opcode - base) / 8) as u8
}

/// Whether bit `n` of `value` is clear.
pub open spec fn bit_is_clear(value: u8, n: u8) -> bool {
    (value >> n) & 1 == 0
}

/// `value` with bit `n` cleared.
pub open spec fn with_bit_clear(value: u8, n: u8) -> u8 {
    value & !(1u8 << n)
}

/// `value` with bit `n` set.
pub open spec fn with_bit_set(value: u8, n: u8) -> u8 {
    value | (1u8 << n)
}

/// The cycles of an instruction of the extended table: twice as many where
/// the operand is in memory.
pub open spec fn operand_cycles(operand: Operand) -> Cycles {
    match operand {
        Operand::Register(_) => 8,
        Operand::RegisterAddress(_) => 16,
    }
}

impl CpuState {
    /// The byte that `operand` names.
    pub open spec fn operand(self, operand: Operand) -> u8 {
        match operand {
            Operand::Register(register) => self.get8(register),
            Operand::RegisterAddress(register) => self.load(self.get16(register)),
        }
    }

    /// The machine after `value` was written to what `operand` names.
    pub open spec fn set_operand(self, operand: Operand, value: u8) -> CpuState {
        match operand {
            Operand::Register(register) => self.set8(register, value),
            Operand::RegisterAddress(register) => self.store(self.get16(register), value),
        }
    }
}

/// A bit test: Zero says whether bit `n` of `value` is clear, Subtract is
/// cleared, HalfCarry is set, and Carry is left alone.
pub open spec fn bit_flags(flags: Flags, n: u8, value: u8) -> Flags {
    Flags { zero: bit_is_clear(value, n), sub: false, half_carry: true, carry: flags.carry }
}

/// What the instruction `opcode` of the extended table does to the machine
/// `s`, whose program counter stands behind the opcode. The groups of
/// rotations and shifts, below `0x40`, hold no instruction.
pub open spec fn extended_step(s: CpuState, opcode: u8) -> Result<Step, Fault> {
    let operand = operand_of(opcode);
    let value = s.operand(operand);
    if opcode < 0x40 {
        Err(Fault::UnimplementedExtended { prefix: PREFIX, opcode })
    } else if opcode < 0x80 {
        Ok(
            Step {
                state: CpuState { flags: bit_flags(s.flags, bit_index(opcode, 0x40), value), ..s },
                cycles: operand_cycles(operand),
            },
        )
    } else if opcode < 0xC0 {
        Ok(
            Step {
                state: s.set_operand(operand, with_bit_clear(value, bit_index(opcode, 0x80))),
                cycles: operand_cycles(operand),
            },
        )
    } else {
        Ok(
            Step {
                state: s.set_operand(operand, with_bit_set(value, bit_index(opcode, 0xC0))),
                cycles: operand_cycles(operand),
            },
        )
    }
}

/// The opcode of the group that starts at `base` for bit `n` and for the
/// operand at place `place` of the eight.
pub open spec fn bit_opcode(base: u8, n: u8, place: u8) -> u8
    recommends
        base == 0x40 || base == 0x80 || base == 0xC0,
        n <= 7,
        place <= 7,
{
    (base + 8 * n + place) as u8
}

/// A bit-test opcode names its bit and its operand, whichever they are.
pub proof fn lemma_bit_opcode(base: u8, n: u8, place: u8)
    requires
        base == 0x40 || base == 0x80 || base == 0xC0,
        n <= 7,
        place <= 7,
    ensures
        base <= bit_opcode(base, n, place) <= base + 0x3F,
        bit_index(bit_opcode(base, n, place), base) == n,
        operand_of(bit_opcode(base, n, place)) == operand_of(place),
{
}

/// The bit test of bit `n` of any of the eight operands, a register or the
/// byte at the address in HL: Zero says whether the bit is clear, Subtract
/// is cleared, HalfCarry is set, and nothing else changes. It is charged 16
/// cycles for the operand in memory and 8 for a register.
pub proof fn lemma_bit_test(s: CpuState, n: u8, place: u8)
    requires
        n <= 7,
        place <= 7,
    ensures
        ({
            let b = s.operand(operand_of(place));
            let outcome = extended_step(s, bit_opcode(0x40, n, place));
            &&& outcome is Ok
            &&& outcome->Ok_0.state == CpuState { flags: outcome->Ok_0.state.flags, ..s }
            &&& outcome->Ok_0.state.flags.zero == ((b >> n) & 1 == 0)
            &&& outcome->Ok_0.state.flags.half_carry
            &&& !outcome->Ok_0.state.flags.sub
            &&& outcome->Ok_0.state.flags.carry == s.flags.carry
            &&& outcome->Ok_0.cycles == if place == 6 { 16u8 } else { 8u8 }
        }),
{
    lemma_bit_opcode(0x40, n, place);
}

/// Clearing a bit clears that bit and leaves the other seven alone; setting
/// a bit sets that bit and leaves the other seven alone.
pub proof fn lemma_with_bit(value: u8, n: u8, m: u8)
    requires
        n <= 7,
        m <= 7,
    ensures
        bit_is_clear(with_bit_clear(value, n), n),
        !bit_is_clear(with_bit_set(value, n), n),
        m != n ==> bit_is_clear(with_bit_clear(value, n), m) == bit_is_clear(value, m),
        m != n ==> bit_is_clear(with_bit_set(value, n), m) == bit_is_clear(value, m),
{
    assert(n <= 7 ==> ((value & !(1u8 << n)) >> n) & 1 == 0) by (bit_vector);
    assert(n <= 7 ==> ((value | (1u8 << n)) >> n) & 1 == 1) by (bit_vector);
    assert(n <= 7 && m <= 7 && m != n ==> ((value & !(1u8 << n)) >> m) & 1 == (value >> m) & 1)
        by (bit_vector);
    assert(n <= 7 && m <= 7 && m != n ==> ((value | (1u8 << n)) >> m) & 1 == (value >> m) & 1)
        by (bit_vector);
}

impl<'a> Cpu<'a> {
    /// The operand that the three low bits of an extended opcode select.
    pub fn operand_for(opcode: u8) -> (operand: Operand)
        ensures
            operand == operand_of(opcode),
    {
        match opcode % 8 {
            0 => Operand::Register(Reg8::B),
            1 => Operand::Register(Reg8::C),
            2 => Operand::Register(Reg8::D),
            3 => Operand::Register(Reg8::E),
            4 => Operand::Register(Reg8::H),
            5 => Operand::Register(Reg8::L),
            6 => Operand::RegisterAddress(Reg16::HL),
            _ => Operand::Register(Reg8::A),
        }
    }

    /// Reads the byte that `operand` names.
    pub fn operand_value(&self, operand: Operand) -> (value: u8)
        ensures
            value == self@.operand(operand),
    {
        match operand {
            Operand::Register(r8) => self.get_r8(r8),
            Operand::RegisterAddress(r16) => {
                let address: u16 = self.get_r16(r16);
                self.mmu.get(address)
            },
        }
    }

    /// Writes `value` to what `operand` names.
    pub fn set_operand(&mut self, operand: Operand, value: u8)
        ensures
            final(self)@ == old(self)@.set_operand(operand, value),
            *final(final(self).mmu) == *final(old(self).mmu),
    {
        match operand {
            Operand::Register(r8) => self.set_r8(r8, value),
            Operand::RegisterAddress(r16) => {
                let address: u16 = self.get_r16(r16);
                self.mmu.set(address, value)
            },
        }
    }

    /// `BIT n, r` and `BIT n, (HL)`: tests bit `n` of `value`. Zero says
    /// whether the bit is clear, Subtract is cleared, HalfCarry is set and
    /// Carry is left alone. 16 cycles where the operand came from memory, 8
    /// otherwise.
    pub fn bit_n_r(&mut self, n: u8, value: u8, is_hl: bool) -> (cycles: Cycles)
        requires
            n <= 7,
        ensures
            final(self)@ == (CpuState {
                flags: bit_flags(old(self).flags, n, value),
                ..old(self)@
            }),
            final(self).flags.zero == ((value >> n) & 1 == 0),
            final(self).flags.sub == false,
            final(self).flags.half_carry == true,
            cycles == if is_hl { 16u8 } else { 8u8 },
            *final(final(self).mmu) == *final(old(self).mmu),
    {
        self.flags.zero = (value >> n) & 1 == 0;
        self.flags.sub = false;
        self.flags.half_carry = true;

        if is_hl {
            16
        } else {
            8
        }
    }

    /// `RES n, r` and `RES n, (HL)`: clears bit `n` of the operand. No flag
    /// changes. 16 cycles where the operand is in memory, 8 otherwise.
    pub fn res_n_r(&mut self, n: u8, operand: Operand) -> (cycles: Cycles)
        requires
            n <= 7,
        ensures
            final(self)@ == old(self)@.set_operand(
                operand,
                with_bit_clear(old(self)@.operand(operand), n),
            ),
            cycles == operand_cycles(operand),
            *final(final(self).mmu) == *final(old(self).mmu),
    {
        let value: u8 = self.operand_value(operand);
        self.set_operand(operand, value & !(1u8 << n));
        match operand {
            Operand::Register(_) => 8,
            Operand::RegisterAddress(_) => 16,
        }
    }

    /// `SET n, r` and `SET n, (HL)`: sets bit `n` of the operand. No flag
    /// changes. 16 cycles where the operand is in memory, 8 otherwise.
    pub fn set_n_r(&mut self, n: u8, operand: Operand) -> (cycles: Cycles)
        requires
            n <= 7,
        ensures
            final(self)@ == old(self)@.set_operand(
                operand,
                with_bit_set(old(self)@.operand(operand), n),
            ),
            cycles == operand_cycles(operand),
            *final(final(self).mmu) == *final(old(self).mmu),
    {
        let value: u8 = self.operand_value(operand);
        self.set_operand(operand, value | (1u8 << n));
        match operand {
            Operand::Register(_) => 8,
            Operand::RegisterAddress(_) => 16,
        }
    }

    /// Runs the instruction that `opcode` selects in the extended table.
    /// Where no instruction stands for the opcode, the machine is left as it
    /// was and the fault says which opcode it was, and behind which prefix.
    pub fn match_cb_prefix(&mut self, opcode: u8) -> (outcome: Result<Cycles, Fault>)
        ensures
            match extended_step(old(self)@, opcode) {
                Ok(step) => outcome == Ok::<Cycles, Fault>(step.cycles)
                    && final(self)@ == step.state,
                Err(fault) => outcome == Err::<Cycles, Fault>(fault)
                    && final(self)@ == old(self)@,
            },
            *final(final(self).mmu) == *final(old(self).mmu),
    {
        let operand = Self::operand_for(opcode);
        match opcode {
            0x00..=0x3F => Err(Fault::UnimplementedExtended { prefix: PREFIX, opcode }),
            0x40..=0x7F => {
                let bit: u8 = (opcode - 0x40) / 8;
                let value: u8 = self.operand_value(operand);
                let is_hl: bool = match operand {
                    Operand::Register(_) => false,
                    Operand::RegisterAddress(_) => true,
                };
                Ok(self.bit_n_r(bit, value, is_hl))
            },
            0x80..=0xBF => {
                let bit: u8 = (opcode - 0x80) / 8;
                Ok(self.res_n_r(bit, operand))
            },
            _ => {
                let bit: u8 = (opcode - 0xC0) / 8;
                Ok(self.set_n_r(bit, operand))
            },
        }
    }
}

} // verus!
