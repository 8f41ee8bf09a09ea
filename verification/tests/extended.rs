use gb_core::cpu::cb_prefix::Operand;
use gb_core::cpu::{Cpu, Fault, Flags, Reg16, Reg8};
use gb_core::memory::{AddressSpace, Cartridge, Mmu};

fn program(code: &[u8]) -> Mmu {
    let mut image = vec![0u8; 0x8000];
    for (i, byte) in code.iter().enumerate() {
        image[0x0100 + i] = *byte;
    }
    match Cartridge::new(image) {
        Ok(cartridge) => Mmu::new(cartridge),
        Err(error) => panic!("{:?}", error),
    }
}

const OPERANDS: [Operand; 8] = [
    Operand::Register(Reg8::B),
    Operand::Register(Reg8::C),
    Operand::Register(Reg8::D),
    Operand::Register(Reg8::E),
    Operand::Register(Reg8::H),
    Operand::Register(Reg8::L),
    Operand::RegisterAddress(Reg16::HL),
    Operand::Register(Reg8::A),
];

fn snapshot(cpu: &Cpu) -> [u16; 6] {
    [
        cpu.get_r16(Reg16::AF),
        cpu.get_r16(Reg16::BC),
        cpu.get_r16(Reg16::DE),
        cpu.get_r16(Reg16::HL),
        cpu.get_r16(Reg16::SP),
        cpu.get_r16(Reg16::PC),
    ]
}

#[test]
fn bit_3_of_memory_operand_clear() {
    let mut mmu = program(&[0xCB, 0x5E]);
    let mut cpu = Cpu::new(&mut mmu);
    cpu.set_r16(Reg16::HL, 0x4000);
    cpu.mmu.set(0x4000, 0b1111_0111);
    cpu.flags = Flags { zero: false, sub: true, half_carry: false, carry: false };
    assert_eq!(cpu.execute(), Ok(16));
    assert_eq!(cpu.flags, Flags { zero: true, sub: false, half_carry: true, carry: false });
    assert_eq!(cpu.get_r16(Reg16::PC), 0x0102);
    assert_eq!(cpu.get_r16(Reg16::HL), 0x4000);
    assert_eq!(cpu.mmu.get(0x4000), 0b1111_0111);
}

#[test]
fn bit_3_of_memory_operand_set() {
    let mut mmu = program(&[0xCB, 0x5E]);
    let mut cpu = Cpu::new(&mut mmu);
    cpu.set_r16(Reg16::HL, 0x4000);
    cpu.mmu.set(0x4000, 0b0000_1000);
    cpu.flags = Flags { zero: true, sub: true, half_carry: false, carry: true };
    assert_eq!(cpu.execute(), Ok(16));
    assert_eq!(cpu.flags, Flags { zero: false, sub: false, half_carry: true, carry: true });
}

#[test]
fn operand_order_of_the_extended_table() {
    for opcode in 0..=u8::MAX {
        assert_eq!(Cpu::operand_for(opcode), OPERANDS[(opcode % 8) as usize]);
    }
}

#[test]
fn bit_test_for_every_bit_operand_and_byte() {
    for n in 0..8u8 {
        for place in 0..8u8 {
            let opcode = 0x40 + 8 * n + place;
            for b in [0x00u8, 0xFF, 1 << n, !(1 << n), 0x5A, 0xA5] {
                let mut mmu = program(&[0xCB, opcode]);
                let mut cpu = Cpu::new(&mut mmu);
                cpu.set_r16(Reg16::HL, 0x4000);
                cpu.set_operand(OPERANDS[place as usize], b);
                cpu.flags = Flags { zero: false, sub: true, half_carry: false, carry: n % 2 == 0 };
                let before = snapshot(&cpu);
                let operand_before = cpu.operand_value(OPERANDS[place as usize]);
                assert_eq!(operand_before, b);
                assert_eq!(cpu.execute(), Ok(if place == 6 { 16 } else { 8 }));
                assert_eq!(cpu.flags.zero, ((b >> n) & 1) == 0);
                assert!(cpu.flags.half_carry);
                assert!(!cpu.flags.sub);
                assert_eq!(cpu.flags.carry, n % 2 == 0);
                assert_eq!(cpu.operand_value(OPERANDS[place as usize]), b);
                assert_eq!(snapshot(&cpu)[1..5], before[1..5]);
                assert_eq!(cpu.a.value(), (before[0] >> 8) as u8);
                assert_eq!(cpu.get_r16(Reg16::PC), 0x0102);
            }
        }
    }
}

#[test]
fn bit_test_handler() {
    let mut mmu = program(&[]);
    let mut cpu = Cpu::new(&mut mmu);
    cpu.flags = Flags { zero: false, sub: true, half_carry: false, carry: true };
    assert_eq!(cpu.bit_n_r(7, 0x7F, false), 8);
    assert_eq!(cpu.flags, Flags { zero: true, sub: false, half_carry: true, carry: true });
    assert_eq!(cpu.bit_n_r(7, 0x80, true), 16);
    assert_eq!(cpu.flags, Flags { zero: false, sub: false, half_carry: true, carry: true });
    assert_eq!(cpu.bit_n_r(0, 0x01, false), 8);
    assert!(!cpu.flags.zero);
    assert_eq!(cpu.bit_n_r(0, 0xFE, false), 8);
    assert!(cpu.flags.zero);
}

#[test]
fn bit_clear_for_every_bit_and_operand() {
    for n in 0..8u8 {
        for place in 0..8u8 {
            let opcode = 0x80 + 8 * n + place;
            let mut mmu = program(&[0xCB, opcode]);
            let mut cpu = Cpu::new(&mut mmu);
            cpu.set_r16(Reg16::HL, 0x4000);
            cpu.set_operand(OPERANDS[place as usize], 0xFF);
            let flags = Flags { zero: n % 2 == 0, sub: true, half_carry: false, carry: true };
            cpu.flags = flags;
            assert_eq!(cpu.execute(), Ok(if place == 6 { 16 } else { 8 }));
            assert_eq!(cpu.operand_value(OPERANDS[place as usize]), 0xFF & !(1 << n));
            assert_eq!(cpu.flags, flags);
            assert_eq!(cpu.get_r16(Reg16::PC), 0x0102);
        }
    }
}

#[test]
fn bit_set_for_every_bit_and_operand() {
    for n in 0..8u8 {
        for place in 0..8u8 {
            let opcode = 0xC0 + 8 * n + place;
            let mut mmu = program(&[0xCB, opcode]);
            let mut cpu = Cpu::new(&mut mmu);
            cpu.set_r16(Reg16::HL, 0x4000);
            cpu.set_operand(OPERANDS[place as usize], 0x00);
            let flags = Flags { zero: n % 2 == 0, sub: false, half_carry: true, carry: false };
            cpu.flags = flags;
            assert_eq!(cpu.execute(), Ok(if place == 6 { 16 } else { 8 }));
            assert_eq!(cpu.operand_value(OPERANDS[place as usize]), 1 << n);
            assert_eq!(cpu.flags, flags);
            assert_eq!(cpu.get_r16(Reg16::PC), 0x0102);
        }
    }
}

#[test]
fn bit_clear_and_set_keep_the_other_bits() {
    let mut mmu = program(&[]);
    let mut cpu = Cpu::new(&mut mmu);
    cpu.get_r(Reg8::D).set(0b1010_0101);
    assert_eq!(cpu.res_n_r(0, Operand::Register(Reg8::D)), 8);
    assert_eq!(cpu.d.value(), 0b1010_0100);
    assert_eq!(cpu.res_n_r(1, Operand::Register(Reg8::D)), 8);
    assert_eq!(cpu.d.value(), 0b1010_0100);
    assert_eq!(cpu.set_n_r(1, Operand::Register(Reg8::D)), 8);
    assert_eq!(cpu.d.value(), 0b1010_0110);
    assert_eq!(cpu.set_n_r(7, Operand::Register(Reg8::D)), 8);
    assert_eq!(cpu.d.value(), 0b1010_0110);
    cpu.set_r16(Reg16::HL, 0x4000);
    cpu.mmu.set(0x4000, 0x0F);
    assert_eq!(cpu.set_n_r(4, Operand::RegisterAddress(Reg16::HL)), 16);
    assert_eq!(cpu.mmu.get(0x4000), 0x1F);
    assert_eq!(cpu.res_n_r(0, Operand::RegisterAddress(Reg16::HL)), 16);
    assert_eq!(cpu.mmu.get(0x4000), 0x1E);
}

#[test]
fn bit_set_on_unattached_memory_is_dropped() {
    let mut mmu = program(&[0xCB, 0xC6]);
    let mut cpu = Cpu::new(&mut mmu);
    cpu.set_r16(Reg16::HL, 0xC000);
    assert_eq!(cpu.execute(), Ok(16));
    assert_eq!(cpu.mmu.get(0xC000), 0x00);
    assert_eq!(cpu.get_r16(Reg16::HL), 0xC000);
}

#[test]
fn rotations_and_shifts_are_reported_with_the_prefix() {
    for opcode in 0x00..0x40u8 {
        let mut mmu = program(&[0xCB, opcode]);
        let mut cpu = Cpu::new(&mut mmu);
        let before = snapshot(&cpu);
        assert_eq!(
            cpu.execute(),
            Err(Fault::UnimplementedExtended { prefix: 0xCB, opcode })
        );
        assert_eq!(snapshot(&cpu), before);
        assert_eq!(cpu.get_r16(Reg16::PC), 0x0100);
        assert_eq!(cpu.flags, Flags::new());
    }
}

#[test]
fn extended_table_reports_through_every_entry_point() {
    let mut mmu = program(&[0xCB, 0x37, 0x37]);
    let mut cpu = Cpu::new(&mut mmu);
    assert_eq!(
        cpu.match_cb_prefix(0x37),
        Err(Fault::UnimplementedExtended { prefix: 0xCB, opcode: 0x37 })
    );
    assert_eq!(cpu.get_r16(Reg16::PC), 0x0100);
    cpu.set_r16(Reg16::PC, 0x0101);
    assert_eq!(
        cpu.decode(0xCB),
        Err(Fault::UnimplementedExtended { prefix: 0xCB, opcode: 0x37 })
    );
    assert_eq!(cpu.get_r16(Reg16::PC), 0x0101);
    assert_eq!(cpu.match_cb_prefix(0x47), Ok(8));
    assert_eq!(cpu.match_cb_prefix(0x46), Ok(16));
    assert_eq!(cpu.get_r16(Reg16::PC), 0x0101);
}

#[test]
fn operands_read_and_write_their_place() {
    let mut mmu = program(&[]);
    let mut cpu = Cpu::new(&mut mmu);
    cpu.set_r16(Reg16::HL, 0x4000);
    for (i, operand) in OPERANDS.iter().enumerate() {
        cpu.set_operand(*operand, 0x10 + i as u8);
    }
    assert_eq!(cpu.b.value(), 0x10);
    assert_eq!(cpu.c.value(), 0x11);
    assert_eq!(cpu.d.value(), 0x12);
    assert_eq!(cpu.e.value(), 0x13);
    assert_eq!(cpu.h.value(), 0x14);
    assert_eq!(cpu.l.value(), 0x15);
    assert_eq!(cpu.a.value(), 0x17);
    assert_eq!(cpu.mmu.get(0x1415), 0x16);
    assert_eq!(cpu.operand_value(Operand::RegisterAddress(Reg16::HL)), 0x16);
    assert_eq!(cpu.operand_value(Operand::RegisterAddress(Reg16::BC)), cpu.mmu.get(0x1011));
}
