use dmg_01::cpu::flags_register::FlagsRegister;
use dmg_01::cpu::instruction::{BitPosition, Instruction, PrefixTarget};
use dmg_01::cpu::register_manipulation::{
    bit_test, execute, read_operand, reset_bit, rotate_left, rotate_left_through_carry,
    rotate_right, rotate_right_through_carry, set_bit, shift_left_arithmetic,
    shift_right_arithmetic, shift_right_logical, swap_nibbles, write_operand,
};
use dmg_01::cpu::{NotImplemented, CPU};

fn flags(zero: bool, subtract: bool, half_carry: bool, carry: bool) -> FlagsRegister {
    FlagsRegister { zero, subtract, half_carry, carry }
}

const BITS: [BitPosition; 8] = [
    BitPosition::B0,
    BitPosition::B1,
    BitPosition::B2,
    BitPosition::B3,
    BitPosition::B4,
    BitPosition::B5,
    BitPosition::B6,
    BitPosition::B7,
];

const REGISTERS: [PrefixTarget; 7] = [
    PrefixTarget::A,
    PrefixTarget::B,
    PrefixTarget::C,
    PrefixTarget::D,
    PrefixTarget::E,
    PrefixTarget::H,
    PrefixTarget::L,
];

#[test]
fn rotate_right_through_carry_moves_bit_0_out_and_the_carry_in() {
    let mut cpu = CPU::new();
    for value in 0..=255u8 {
        for carry in [false, true] {
            cpu.registers.f = flags(true, true, true, carry);
            let result = rotate_right_through_carry(&mut cpu, value, true);
            assert_eq!(cpu.registers.f.carry, value & 1 == 1);
            assert_eq!(result & 0x80 == 0x80, carry);
            assert_eq!(result & 0x7F, value >> 1);
            assert_eq!(cpu.registers.f.zero, result == 0);
            assert!(!cpu.registers.f.subtract);
            assert!(!cpu.registers.f.half_carry);
        }
    }
}

#[test]
fn rotate_left_through_carry_moves_bit_7_out_and_the_carry_in() {
    let mut cpu = CPU::new();
    for value in 0..=255u8 {
        for carry in [false, true] {
            cpu.registers.f = flags(true, true, true, carry);
            let result = rotate_left_through_carry(&mut cpu, value, true);
            assert_eq!(cpu.registers.f.carry, value & 0x80 == 0x80);
            assert_eq!(result & 1 == 1, carry);
            assert_eq!(result & 0xFE, value << 1);
            assert_eq!(cpu.registers.f.zero, result == 0);
            assert!(!cpu.registers.f.subtract);
            assert!(!cpu.registers.f.half_carry);
        }
    }
}

#[test]
fn plain_rotates_bring_the_bit_back_in() {
    let mut cpu = CPU::new();
    for value in 0..=255u8 {
        cpu.registers.f = flags(false, true, true, false);
        assert_eq!(rotate_left(&mut cpu, value, true), value.rotate_left(1));
        assert_eq!(cpu.registers.f, flags(value == 0, false, false, value >= 0x80));
        cpu.registers.f = flags(false, true, true, true);
        assert_eq!(rotate_right(&mut cpu, value, true), value.rotate_right(1));
        assert_eq!(cpu.registers.f, flags(value == 0, false, false, value % 2 == 1));
    }
}

#[test]
fn rotates_of_the_accumulator_never_set_zero() {
    for instruction in [Instruction::RRA, Instruction::RLA, Instruction::RRCA, Instruction::RLCA] {
        let mut cpu = CPU::new();
        cpu.pc = 0x0100;
        cpu.registers.a = 0x00;
        cpu.registers.f = flags(true, true, true, false);
        assert_eq!(execute(&mut cpu, instruction), Ok((0x0101, 4)));
        assert_eq!(cpu.registers.a, 0x00);
        assert_eq!(cpu.registers.f, flags(false, false, false, false));
    }
}

#[test]
fn rotates_of_the_accumulator() {
    let mut cpu = CPU::new();
    cpu.registers.a = 0b1000_0001;
    cpu.registers.f = flags(false, false, false, false);
    let _ = execute(&mut cpu, Instruction::RRA);
    assert_eq!(cpu.registers.a, 0b0100_0000);
    assert_eq!(cpu.registers.f, flags(false, false, false, true));
    let _ = execute(&mut cpu, Instruction::RRA);
    assert_eq!(cpu.registers.a, 0b1010_0000);
    assert_eq!(cpu.registers.f, flags(false, false, false, false));

    cpu.registers.a = 0b1000_0001;
    let _ = execute(&mut cpu, Instruction::RLA);
    assert_eq!(cpu.registers.a, 0b0000_0010);
    assert_eq!(cpu.registers.f, flags(false, false, false, true));
    let _ = execute(&mut cpu, Instruction::RLA);
    assert_eq!(cpu.registers.a, 0b0000_0101);
    assert_eq!(cpu.registers.f, flags(false, false, false, false));

    cpu.registers.a = 0b1000_0010;
    let _ = execute(&mut cpu, Instruction::RLCA);
    assert_eq!(cpu.registers.a, 0b0000_0101);
    assert_eq!(cpu.registers.f, flags(false, false, false, true));

    cpu.registers.a = 0b0100_0001;
    cpu.registers.f = flags(false, false, false, false);
    let _ = execute(&mut cpu, Instruction::RRCA);
    assert_eq!(cpu.registers.a, 0b1010_0000);
    assert_eq!(cpu.registers.f, flags(false, false, false, true));
}

#[test]
fn prefixed_rotates_set_zero_on_a_zero_result() {
    let mut cpu = CPU::new();
    cpu.pc = 0x0100;
    cpu.registers.b = 0x01;
    assert_eq!(execute(&mut cpu, Instruction::RR(PrefixTarget::B)), Ok((0x0102, 8)));
    assert_eq!(cpu.registers.b, 0x00);
    assert_eq!(cpu.registers.f, flags(true, false, false, true));
    assert_eq!(execute(&mut cpu, Instruction::RR(PrefixTarget::B)), Ok((0x0102, 8)));
    assert_eq!(cpu.registers.b, 0x80);
    assert_eq!(cpu.registers.f, flags(false, false, false, false));

    cpu.registers.c = 0x80;
    assert_eq!(execute(&mut cpu, Instruction::RL(PrefixTarget::C)), Ok((0x0102, 8)));
    assert_eq!(cpu.registers.c, 0x00);
    assert_eq!(cpu.registers.f, flags(true, false, false, true));

    cpu.registers.d = 0x00;
    assert_eq!(execute(&mut cpu, Instruction::RLC(PrefixTarget::D)), Ok((0x0102, 8)));
    assert_eq!(cpu.registers.d, 0x00);
    assert_eq!(cpu.registers.f, flags(true, false, false, false));

    cpu.registers.e = 0x01;
    assert_eq!(execute(&mut cpu, Instruction::RRC(PrefixTarget::E)), Ok((0x0102, 8)));
    assert_eq!(cpu.registers.e, 0x80);
    assert_eq!(cpu.registers.f, flags(false, false, false, true));
}

#[test]
fn shifts() {
    let mut cpu = CPU::new();
    for value in 0..=255u8 {
        cpu.registers.f = flags(false, true, true, false);
        assert_eq!(shift_right_logical(&mut cpu, value), value / 2);
        assert_eq!(cpu.registers.f, flags(value / 2 == 0, false, false, value % 2 == 1));

        cpu.registers.f = flags(false, true, true, false);
        assert_eq!(shift_right_arithmetic(&mut cpu, value), ((value as i8) >> 1) as u8);
        assert_eq!(cpu.registers.f, flags(value < 2, false, false, value % 2 == 1));

        cpu.registers.f = flags(false, true, true, false);
        assert_eq!(shift_left_arithmetic(&mut cpu, value), value.wrapping_mul(2));
        assert_eq!(cpu.registers.f, flags(value % 128 == 0, false, false, value >= 128));

        cpu.registers.f = flags(false, true, true, true);
        assert_eq!(swap_nibbles(&mut cpu, value), value.rotate_left(4));
        assert_eq!(cpu.registers.f, flags(value == 0, false, false, false));
    }
    assert_eq!(shift_right_arithmetic(&mut cpu, 0x81), 0xC0);
    assert_eq!(shift_right_logical(&mut cpu, 0x81), 0x40);
    assert_eq!(shift_left_arithmetic(&mut cpu, 0x81), 0x02);
    assert_eq!(swap_nibbles(&mut cpu, 0xA5), 0x5A);
}

#[test]
fn bit_test_sets_zero_for_a_clear_bit_and_leaves_carry() {
    let mut cpu = CPU::new();
    for (number, position) in BITS.into_iter().enumerate() {
        for carry in [false, true] {
            cpu.registers.f = flags(false, true, false, carry);
            bit_test(&mut cpu, 1 << number, position);
            assert_eq!(cpu.registers.f, flags(false, false, true, carry));
            bit_test(&mut cpu, !(1 << number), position);
            assert_eq!(cpu.registers.f, flags(true, false, true, carry));
        }
    }
}

#[test]
fn set_and_reset_change_one_bit() {
    for (number, position) in BITS.into_iter().enumerate() {
        assert_eq!(set_bit(0x00, position), 1 << number);
        assert_eq!(set_bit(0xFF, position), 0xFF);
        assert_eq!(reset_bit(0xFF, position), !(1 << number));
        assert_eq!(reset_bit(0x00, position), 0x00);
        assert_eq!(reset_bit(set_bit(0x5A, position), position), 0x5A & !(1 << number));
    }
}

#[test]
fn bit_instructions_on_registers_cost_eight_cycles_and_two_bytes() {
    for target in REGISTERS {
        let mut cpu = CPU::new();
        cpu.pc = 0x0100;
        cpu.registers.f = flags(true, true, false, true);
        assert_eq!(execute(&mut cpu, Instruction::SET(target, BitPosition::B3)), Ok((0x0102, 8)));
        assert_eq!(read_operand(&cpu, target), 0x08);
        assert_eq!(cpu.registers.f, flags(true, true, false, true));
        assert_eq!(execute(&mut cpu, Instruction::BIT(target, BitPosition::B3)), Ok((0x0102, 8)));
        assert_eq!(cpu.registers.f, flags(false, false, true, true));
        assert_eq!(read_operand(&cpu, target), 0x08);
        assert_eq!(execute(&mut cpu, Instruction::RES(target, BitPosition::B3)), Ok((0x0102, 8)));
        assert_eq!(read_operand(&cpu, target), 0x00);
        assert_eq!(cpu.registers.f, flags(false, false, true, true));
        assert_eq!(execute(&mut cpu, Instruction::BIT(target, BitPosition::B3)), Ok((0x0102, 8)));
        assert_eq!(cpu.registers.f, flags(true, false, true, true));
        let r = cpu.registers;
        assert_eq!([r.a, r.b, r.c, r.d, r.e, r.h, r.l], [0; 7]);
    }
}

#[test]
fn instructions_on_the_byte_at_hl_cost_sixteen_cycles() {
    let mut cpu = CPU::new();
    cpu.pc = 0x0100;
    cpu.registers.set_hl(0xC000);
    cpu.bus.write_byte(0xC000, 0x81);
    let hli = PrefixTarget::HLI;
    assert_eq!(execute(&mut cpu, Instruction::BIT(hli, BitPosition::B7)), Ok((0x0102, 16)));
    assert_eq!(cpu.registers.f, flags(false, false, true, false));
    assert_eq!(cpu.bus.read_byte(0xC000), 0x81);
    assert_eq!(execute(&mut cpu, Instruction::SRL(hli)), Ok((0x0102, 16)));
    assert_eq!(cpu.bus.read_byte(0xC000), 0x40);
    assert_eq!(cpu.registers.f, flags(false, false, false, true));
    assert_eq!(execute(&mut cpu, Instruction::RR(hli)), Ok((0x0102, 16)));
    assert_eq!(cpu.bus.read_byte(0xC000), 0xA0);
    assert_eq!(cpu.registers.f, flags(false, false, false, false));
    assert_eq!(execute(&mut cpu, Instruction::SRA(hli)), Ok((0x0102, 16)));
    assert_eq!(cpu.bus.read_byte(0xC000), 0xD0);
    assert_eq!(execute(&mut cpu, Instruction::SLA(hli)), Ok((0x0102, 16)));
    assert_eq!(cpu.bus.read_byte(0xC000), 0xA0);
    assert_eq!(cpu.registers.f, flags(false, false, false, true));
    assert_eq!(execute(&mut cpu, Instruction::RL(hli)), Ok((0x0102, 16)));
    assert_eq!(cpu.bus.read_byte(0xC000), 0x41);
    assert_eq!(cpu.registers.f, flags(false, false, false, true));
    assert_eq!(execute(&mut cpu, Instruction::RLC(hli)), Ok((0x0102, 16)));
    assert_eq!(cpu.bus.read_byte(0xC000), 0x82);
    assert_eq!(cpu.registers.f, flags(false, false, false, false));
    assert_eq!(execute(&mut cpu, Instruction::RRC(hli)), Ok((0x0102, 16)));
    assert_eq!(cpu.bus.read_byte(0xC000), 0x41);
    assert_eq!(execute(&mut cpu, Instruction::SWAP(hli)), Ok((0x0102, 16)));
    assert_eq!(cpu.bus.read_byte(0xC000), 0x14);
    assert_eq!(execute(&mut cpu, Instruction::SET(hli, BitPosition::B0)), Ok((0x0102, 16)));
    assert_eq!(cpu.bus.read_byte(0xC000), 0x15);
    assert_eq!(execute(&mut cpu, Instruction::RES(hli, BitPosition::B4)), Ok((0x0102, 16)));
    assert_eq!(cpu.bus.read_byte(0xC000), 0x05);
    assert_eq!(cpu.registers.get_hl(), 0xC000);
    assert_eq!(cpu.registers.a, 0x00);
    assert_eq!(cpu.pc, 0x0100);
}

#[test]
fn operands_are_read_and_written_where_they_are_named() {
    let mut cpu = CPU::new();
    cpu.registers.set_hl(0x1234);
    for (index, target) in REGISTERS.into_iter().enumerate() {
        let before = read_operand(&cpu, target);
        write_operand(&mut cpu, target, 0xE0 + index as u8);
        assert_eq!(read_operand(&cpu, target), 0xE0 + index as u8);
        write_operand(&mut cpu, target, before);
    }
    assert_eq!(cpu.registers.get_hl(), 0x1234);
    write_operand(&mut cpu, PrefixTarget::HLI, 0x99);
    assert_eq!(cpu.bus.read_byte(0x1234), 0x99);
    assert_eq!(read_operand(&cpu, PrefixTarget::HLI), 0x99);
    assert_eq!(read_operand(&cpu, PrefixTarget::H), 0x12);
    assert_eq!(read_operand(&cpu, PrefixTarget::L), 0x34);
}

#[test]
fn an_instruction_of_another_unit_is_refused() {
    let mut cpu = CPU::new();
    cpu.registers.a = 0x55;
    for instruction in [Instruction::NOP, Instruction::DAA, Instruction::JPI] {
        assert_eq!(execute(&mut cpu, instruction), Err(NotImplemented { instruction }));
        assert_eq!(cpu.registers.a, 0x55);
    }
}
