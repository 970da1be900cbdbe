//! The bit-manipulation unit: the four rotates of the accumulator, and the
//! prefixed set of rotates, shifts, the nibble swap, and the test, reset and
//! set of a single bit, on a register or on the byte that HL points at.

use vstd::prelude::*;
use crate::cpu::flags_register::FlagsRegister;
use crate::cpu::instruction::{BitPosition, Instruction, PrefixTarget};
use crate::cpu::machine::{offset, Machine, Outcome};
use crate::cpu::registers::Registers;
use crate::cpu::{performed, NotImplemented, CPU};

verus! {

/// A byte and the flags that an operation leaves.
pub struct Shifted {
    pub value: u8,
    pub flags: FlagsRegister,
}

/// The flags after a rotate or shift that gave `value` and moved `carry`
/// out: subtract and half-carry are cleared, and zero is set where the
/// result is zero and the instruction is one that sets it.
pub open spec fn shift_flags(value: u8, carry: bool, set_zero: bool) -> FlagsRegister {
    FlagsRegister { zero: set_zero && value == 0, subtract: false, half_carry: false, carry }
}

/// Whether bit 7 of a byte is set.
pub open spec fn top_bit(value: u8) -> bool {
    value & 0x80 == 0x80
}

/// Whether bit 0 of a byte is set.
pub open spec fn bottom_bit(value: u8) -> bool {
    value & 0x01 == 0x01
}

/// Rotation to the right through the carry flag: every bit moves one down,
/// the carry flag enters at bit 7, and bit 0 leaves into the carry flag.
pub open spec fn rotated_right_through_carry(value: u8, carry: bool, set_zero: bool) -> Shifted {
    let result = (if carry {
        0x80u8
    } else {
        0u8
    }) | (value >> 1);
    Shifted { value: result, flags: shift_flags(result, bottom_bit(value), set_zero) }
}

/// Rotation to the left through the carry flag: every bit moves one up, the
/// carry flag enters at bit 0, and bit 7 leaves into the carry flag.
pub open spec fn rotated_left_through_carry(value: u8, carry: bool, set_zero: bool) -> Shifted {
    let result = (value << 1) | (if carry {
        1u8
    } else {
        0u8
    });
    Shifted { value: result, flags: shift_flags(result, top_bit(value), set_zero) }
}

/// Rotation to the left: bit 7 comes back in at bit 0 and is copied into the
/// carry flag.
pub open spec fn rotated_left(value: u8, set_zero: bool) -> Shifted {
    let result = (value << 1) | (value >> 7);
    Shifted { value: result, flags: shift_flags(result, top_bit(value), set_zero) }
}

/// Rotation to the right: bit 0 comes back in at bit 7 and is copied into
/// the carry flag.
pub open spec fn rotated_right(value: u8, set_zero: bool) -> Shifted {
    let result = (value >> 1) | (value << 7);
    Shifted { value: result, flags: shift_flags(result, bottom_bit(value), set_zero) }
}

/// Logical shift to the right: bit 7 becomes zero, bit 0 leaves into the
/// carry flag.
pub open spec fn shifted_right_logical(value: u8) -> Shifted {
    let result = value >> 1;
    Shifted { value: result, flags: shift_flags(result, bottom_bit(value), true) }
}

/// Arithmetic shift to the right: bit 7 keeps its value, bit 0 leaves into
/// the carry flag.
pub open spec fn shifted_right_arithmetic(value: u8) -> Shifted {
    let result = (value & 0x80) | (value >> 1);
    Shifted { value: result, flags: shift_flags(result, bottom_bit(value), true) }
}

/// Shift to the left: bit 0 becomes zero, bit 7 leaves into the carry flag.
pub open spec fn shifted_left_arithmetic(value: u8) -> Shifted {
    let result = value << 1;
    Shifted { value: result, flags: shift_flags(result, top_bit(value), true) }
}

/// The two nibbles of a byte exchanged. The carry flag is cleared.
pub open spec fn swapped_nibbles(value: u8) -> Shifted {
    let result = ((value & 0xf) << 4) | ((value & 0xf0) >> 4);
    Shifted { value: result, flags: shift_flags(result, false, true) }
}

/// Whether the bit at `position` is set in `value`.
pub open spec fn bit_is_set(value: u8, position: BitPosition) -> bool {
    (value >> position.index()) & 0b1 != 0
}

/// The flags after a bit test: zero is set where the bit is clear, subtract
/// is cleared, half-carry is set, and carry stays.
pub open spec fn bit_test_flags(value: u8, position: BitPosition, flags: FlagsRegister)
    -> FlagsRegister {
    FlagsRegister {
        zero: !bit_is_set(value, position),
        subtract: false,
        half_carry: true,
        carry: flags.carry,
    }
}

/// A byte with the bit at `position` cleared.
pub open spec fn with_bit_reset(value: u8, position: BitPosition) -> u8 {
    value & !(1u8 << position.index())
}

/// A byte with the bit at `position` set.
pub open spec fn with_bit_set(value: u8, position: BitPosition) -> u8 {
    value | (1u8 << position.index())
}

/// The byte that an operand of the prefixed set names.
pub open spec fn operand_value(machine: Machine, target: PrefixTarget) -> u8 {
    match target {
        PrefixTarget::A => machine.registers.a,
        PrefixTarget::B => machine.registers.b,
        PrefixTarget::C => machine.registers.c,
        PrefixTarget::D => machine.registers.d,
        PrefixTarget::E => machine.registers.e,
        PrefixTarget::H => machine.registers.h,
        PrefixTarget::L => machine.registers.l,
        PrefixTarget::HLI => machine.read(machine.registers.hl()),
    }
}

/// The state after `value` is stored where an operand of the prefixed set
/// names.
pub open spec fn with_operand(machine: Machine, target: PrefixTarget, value: u8) -> Machine {
    let registers = machine.registers;
    match target {
        PrefixTarget::A => machine.with_registers(Registers { a: value, ..registers }),
        PrefixTarget::B => machine.with_registers(Registers { b: value, ..registers }),
        PrefixTarget::C => machine.with_registers(Registers { c: value, ..registers }),
        PrefixTarget::D => machine.with_registers(Registers { d: value, ..registers }),
        PrefixTarget::E => machine.with_registers(Registers { e: value, ..registers }),
        PrefixTarget::H => machine.with_registers(Registers { h: value, ..registers }),
        PrefixTarget::L => machine.with_registers(Registers { l: value, ..registers }),
        PrefixTarget::HLI => machine.write(registers.hl(), value),
    }
}

/// The cycles of an instruction of the prefixed set: 16 on the byte at HL,
/// 8 on a register.
pub open spec fn operand_cycles(target: PrefixTarget) -> u8 {
    if target is HLI {
        16
    } else {
        8
    }
}

/// The operand of an instruction of the prefixed set that stores a result:
/// all of them but the bit test.
pub open spec fn stored_operand(instruction: Instruction) -> Option<PrefixTarget> {
    match instruction {
        Instruction::RES(target, _) => Some(target),
        Instruction::SET(target, _) => Some(target),
        Instruction::SRL(target) => Some(target),
        Instruction::RR(target) => Some(target),
        Instruction::RL(target) => Some(target),
        Instruction::RRC(target) => Some(target),
        Instruction::RLC(target) => Some(target),
        Instruction::SRA(target) => Some(target),
        Instruction::SLA(target) => Some(target),
        Instruction::SWAP(target) => Some(target),
        _ => None,
    }
}

/// What a rotate, a shift, the swap, or the reset or set of a bit makes of a
/// byte and the flags. The rotates of the prefixed set set the zero flag on
/// a zero result; the four rotates of the accumulator always clear it. The
/// reset and the set of a bit leave the flags as they are. Every other
/// instruction is given as leaving byte and flags alone.
pub open spec fn transformed(instruction: Instruction, value: u8, flags: FlagsRegister)
    -> Shifted {
    match instruction {
        Instruction::RRA => rotated_right_through_carry(value, flags.carry, false),
        Instruction::RLA => rotated_left_through_carry(value, flags.carry, false),
        Instruction::RRCA => rotated_right(value, false),
        Instruction::RLCA => rotated_left(value, false),
        Instruction::RR(_) => rotated_right_through_carry(value, flags.carry, true),
        Instruction::RL(_) => rotated_left_through_carry(value, flags.carry, true),
        Instruction::RRC(_) => rotated_right(value, true),
        Instruction::RLC(_) => rotated_left(value, true),
        Instruction::SRL(_) => shifted_right_logical(value),
        Instruction::SRA(_) => shifted_right_arithmetic(value),
        Instruction::SLA(_) => shifted_left_arithmetic(value),
        Instruction::SWAP(_) => swapped_nibbles(value),
        Instruction::RES(_, position) => Shifted { value: with_bit_reset(value, position), flags },
        Instruction::SET(_, position) => Shifted { value: with_bit_set(value, position), flags },
        _ => Shifted { value, flags },
    }
}

/// What the unit does with an instruction: the outcome, or `None` for an
/// instruction of another unit.
///
/// A rotate of the accumulator is one byte wide and costs 4 cycles. An
/// instruction of the prefixed set is two bytes wide, the prefix counted,
/// and costs 8 cycles on a register and 16 on the byte at HL. It reads its
/// operand, sets the flags, and stores the result where it read; the bit
/// test stores nothing.
pub open spec fn manipulation_outcome(machine: Machine, instruction: Instruction) -> Option<
    Outcome,
> {
    let registers = machine.registers;
    match instruction {
        Instruction::RRA | Instruction::RLA | Instruction::RRCA | Instruction::RLCA => {
            let shifted = transformed(instruction, registers.a, registers.f);
            Some(
                machine.with_registers(
                    Registers { a: shifted.value, f: shifted.flags, ..registers },
                ).proceed(1, 4),
            )
        },
        Instruction::BIT(target, position) => {
            let flags = bit_test_flags(operand_value(machine, target), position, registers.f);
            Some(
                machine.with_registers(Registers { f: flags, ..registers }).proceed(
                    2,
                    operand_cycles(target),
                ),
            )
        },
        _ => match stored_operand(instruction) {
            Some(target) => {
                let shifted = transformed(
                    instruction,
                    operand_value(machine, target),
                    registers.f,
                );
                Some(
                    with_operand(
                        machine.with_registers(Registers { f: shifted.flags, ..registers }),
                        target,
                        shifted.value,
                    ).proceed(2, operand_cycles(target)),
                )
            },
            None => None,
        },
    }
}

/// What an operation that only sets the flags leaves of the CPU.
pub open spec fn with_flags(machine: Machine, flags: FlagsRegister) -> Machine {
    machine.with_registers(Registers { f: flags, ..machine.registers })
}

/// Rotates `value` to the right through the carry flag. Returns the result
/// and sets the flags for it.
pub fn rotate_right_through_carry(cpu: &mut CPU, value: u8, set_zero: bool) -> (result: u8)
    ensures
        result == rotated_right_through_carry(value, old(cpu).registers.f.carry, set_zero).value,
        final(cpu)@ == with_flags(
            old(cpu)@,
            rotated_right_through_carry(value, old(cpu).registers.f.carry, set_zero).flags,
        ),
{
    let carry_bit: u8 = if cpu.registers.f.carry {
        0x80
    } else {
        0
    };
    let new_value = carry_bit | (value >> 1);
    cpu.registers.f.zero = set_zero && new_value == 0;
    cpu.registers.f.subtract = false;
    cpu.registers.f.half_carry = false;
    cpu.registers.f.carry = value & 0b1 == 0b1;
    new_value
}

/// Rotates `value` to the left through the carry flag. Returns the result
/// and sets the flags for it.
pub fn rotate_left_through_carry(cpu: &mut CPU, value: u8, set_zero: bool) -> (result: u8)
    ensures
        result == rotated_left_through_carry(value, old(cpu).registers.f.carry, set_zero).value,
        final(cpu)@ == with_flags(
            old(cpu)@,
            rotated_left_through_carry(value, old(cpu).registers.f.carry, set_zero).flags,
        ),
{
    let carry_bit: u8 = if cpu.registers.f.carry {
        1
    } else {
        0
    };
    let new_value = (value << 1) | carry_bit;
    cpu.registers.f.zero = set_zero && new_value == 0;
    cpu.registers.f.subtract = false;
    cpu.registers.f.half_carry = false;
    cpu.registers.f.carry = (value & 0x80) == 0x80;
    new_value
}

/// Rotates `value` to the left. Returns the result and sets the flags for
/// it.
pub fn rotate_left(cpu: &mut CPU, value: u8, set_zero: bool) -> (result: u8)
    ensures
        result == rotated_left(value, set_zero).value,
        final(cpu)@ == with_flags(old(cpu)@, rotated_left(value, set_zero).flags),
{
    let new_value = (value << 1) | (value >> 7);
    cpu.registers.f.zero = set_zero && new_value == 0;
    cpu.registers.f.subtract = false;
    cpu.registers.f.half_carry = false;
    cpu.registers.f.carry = (value & 0x80) == 0x80;
    new_value
}

/// Rotates `value` to the right. Returns the result and sets the flags for
/// it.
pub fn rotate_right(cpu: &mut CPU, value: u8, set_zero: bool) -> (result: u8)
    ensures
        result == rotated_right(value, set_zero).value,
        final(cpu)@ == with_flags(old(cpu)@, rotated_right(value, set_zero).flags),
{
    let new_value = (value >> 1) | (value << 7);
    cpu.registers.f.zero = set_zero && new_value == 0;
    cpu.registers.f.subtract = false;
    cpu.registers.f.half_carry = false;
    cpu.registers.f.carry = value & 0b1 == 0b1;
    new_value
}

/// Tests the bit at `bit_position` of `value` and sets the flags for it.
pub fn bit_test(cpu: &mut CPU, value: u8, bit_position: BitPosition)
    ensures
        final(cpu)@ == with_flags(
            old(cpu)@,
            bit_test_flags(value, bit_position, old(cpu).registers.f),
        ),
{
    let bit_position: u8 = bit_position.into();
    let result = (value >> bit_position) & 0b1;
    cpu.registers.f.zero = result == 0;
    cpu.registers.f.subtract = false;
    cpu.registers.f.half_carry = true;
}

/// `value` with the bit at `bit_position` cleared.
pub fn reset_bit(value: u8, bit_position: BitPosition) -> (result: u8)
    ensures
        result == with_bit_reset(value, bit_position),
{
    let bit_position: u8 = bit_position.into();
    value & !(1u8 << bit_position)
}

/// `value` with the bit at `bit_position` set.
pub fn set_bit(value: u8, bit_position: BitPosition) -> (result: u8)
    ensures
        result == with_bit_set(value, bit_position),
{
    let bit_position: u8 = bit_position.into();
    value | (1u8 << bit_position)
}

/// Shifts `value` one bit to the right, bit 7 becoming zero. Returns the
/// result and sets the flags for it.
pub fn shift_right_logical(cpu: &mut CPU, value: u8) -> (result: u8)
    ensures
        result == shifted_right_logical(value).value,
        final(cpu)@ == with_flags(old(cpu)@, shifted_right_logical(value).flags),
{
    let new_value = value >> 1;
    cpu.registers.f.zero = new_value == 0;
    cpu.registers.f.subtract = false;
    cpu.registers.f.half_carry = false;
    cpu.registers.f.carry = value & 0b1 == 0b1;
    new_value
}

/// Shifts `value` one bit to the right, bit 7 keeping its value. Returns the
/// result and sets the flags for it.
pub fn shift_right_arithmetic(cpu: &mut CPU, value: u8) -> (result: u8)
    ensures
        result == shifted_right_arithmetic(value).value,
        final(cpu)@ == with_flags(old(cpu)@, shifted_right_arithmetic(value).flags),
{
    let msb = value & 0x80;
    let new_value = msb | (value >> 1);
    cpu.registers.f.zero = new_value == 0;
    cpu.registers.f.subtract = false;
    cpu.registers.f.half_carry = false;
    cpu.registers.f.carry = value & 0b1 == 0b1;
    new_value
}

/// Shifts `value` one bit to the left. Returns the result and sets the flags
/// for it.
pub fn shift_left_arithmetic(cpu: &mut CPU, value: u8) -> (result: u8)
    ensures
        result == shifted_left_arithmetic(value).value,
        final(cpu)@ == with_flags(old(cpu)@, shifted_left_arithmetic(value).flags),
{
    let new_value = value << 1;
    cpu.registers.f.zero = new_value == 0;
    cpu.registers.f.subtract = false;
    cpu.registers.f.half_carry = false;
    cpu.registers.f.carry = value & 0x80 == 0x80;
    new_value
}

/// Exchanges the two nibbles of `value`. Returns the result and sets the
/// flags for it.
pub fn swap_nibbles(cpu: &mut CPU, value: u8) -> (result: u8)
    ensures
        result == swapped_nibbles(value).value,
        final(cpu)@ == with_flags(old(cpu)@, swapped_nibbles(value).flags),
{
    let new_value = ((value & 0xf) << 4) | ((value & 0xf0) >> 4);
    cpu.registers.f.zero = new_value == 0;
    cpu.registers.f.subtract = false;
    cpu.registers.f.half_carry = false;
    cpu.registers.f.carry = false;
    new_value
}

/// Reads the byte that an operand of the prefixed set names.
pub fn read_operand(cpu: &CPU, target: PrefixTarget) -> (value: u8)
    ensures
        value == operand_value(cpu@, target),
{
    match target {
        PrefixTarget::A => cpu.registers.a,
        PrefixTarget::B => cpu.registers.b,
        PrefixTarget::C => cpu.registers.c,
        PrefixTarget::D => cpu.registers.d,
        PrefixTarget::E => cpu.registers.e,
        PrefixTarget::H => cpu.registers.h,
        PrefixTarget::L => cpu.registers.l,
        PrefixTarget::HLI => {
            let address = cpu.registers.get_hl();
            cpu.bus.read_byte(address)
        },
    }
}

/// Stores a byte where an operand of the prefixed set names.
pub fn write_operand(cpu: &mut CPU, target: PrefixTarget, value: u8)
    ensures
        final(cpu)@ == with_operand(old(cpu)@, target, value),
{
    match target {
        PrefixTarget::A => cpu.registers.a = value,
        PrefixTarget::B => cpu.registers.b = value,
        PrefixTarget::C => cpu.registers.c = value,
        PrefixTarget::D => cpu.registers.d = value,
        PrefixTarget::E => cpu.registers.e = value,
        PrefixTarget::H => cpu.registers.h = value,
        PrefixTarget::L => cpu.registers.l = value,
        PrefixTarget::HLI => {
            let address = cpu.registers.get_hl();
            cpu.bus.write_byte(address, value);
        },
    }
}

/// The cycles of an instruction of the prefixed set on `target`.
fn cycles_on(target: PrefixTarget) -> (cycles: u8)
    ensures
        cycles == operand_cycles(target),
{
    match target {
        PrefixTarget::HLI => 16,
        _ => 8,
    }
}

/// Applies a rotate, a shift, the swap, or the reset or set of a bit to
/// `value`. Returns the result and sets the flags for it.
fn transform(cpu: &mut CPU, instruction: Instruction, value: u8) -> (result: u8)
    ensures
        result == transformed(instruction, value, old(cpu).registers.f).value,
        final(cpu)@ == with_flags(
            old(cpu)@,
            transformed(instruction, value, old(cpu).registers.f).flags,
        ),
{
    match instruction {
        Instruction::RRA => rotate_right_through_carry(cpu, value, false),
        Instruction::RLA => rotate_left_through_carry(cpu, value, false),
        Instruction::RRCA => rotate_right(cpu, value, false),
        Instruction::RLCA => rotate_left(cpu, value, false),
        Instruction::RR(_) => rotate_right_through_carry(cpu, value, true),
        Instruction::RL(_) => rotate_left_through_carry(cpu, value, true),
        Instruction::RRC(_) => rotate_right(cpu, value, true),
        Instruction::RLC(_) => rotate_left(cpu, value, true),
        Instruction::SRL(_) => shift_right_logical(cpu, value),
        Instruction::SRA(_) => shift_right_arithmetic(cpu, value),
        Instruction::SLA(_) => shift_left_arithmetic(cpu, value),
        Instruction::SWAP(_) => swap_nibbles(cpu, value),
        Instruction::RES(_, position) => reset_bit(value, position),
        Instruction::SET(_, position) => set_bit(value, position),
        _ => value,
    }
}

/// The operand of an instruction that stores a result.
fn operand_of(instruction: Instruction) -> (target: Option<PrefixTarget>)
    ensures
        target == stored_operand(instruction),
{
    match instruction {
        Instruction::RES(target, _) => Some(target),
        Instruction::SET(target, _) => Some(target),
        Instruction::SRL(target) => Some(target),
        Instruction::RR(target) => Some(target),
        Instruction::RL(target) => Some(target),
        Instruction::RRC(target) => Some(target),
        Instruction::RLC(target) => Some(target),
        Instruction::SRA(target) => Some(target),
        Instruction::SLA(target) => Some(target),
        Instruction::SWAP(target) => Some(target),
        _ => None,
    }
}

/// Carries out an instruction of this unit on the CPU: changes registers,
/// flags and memory as `manipulation_outcome` says and returns the program
/// counter of the next instruction and the cycles spent. The program
/// counter itself is left for the caller to commit. An instruction of
/// another unit leaves the CPU untouched and comes back in the error.
pub fn execute(cpu: &mut CPU, instruction: Instruction) -> (result: Result<
    (u16, u8),
    NotImplemented,
>)
    ensures
        performed(
            old(cpu)@,
            final(cpu)@,
            result,
            manipulation_outcome(old(cpu)@, instruction),
            instruction,
        ),
{
    match instruction {
        Instruction::RRA | Instruction::RLA | Instruction::RRCA | Instruction::RLCA => {
            let value = cpu.registers.a;
            let result = transform(cpu, instruction, value);
            cpu.registers.a = result;
            Ok((cpu.pc.wrapping_add(1), 4))
        },
        Instruction::BIT(target, position) => {
            let value = read_operand(cpu, target);
            bit_test(cpu, value, position);
            Ok((cpu.pc.wrapping_add(2), cycles_on(target)))
        },
        _ => match operand_of(instruction) {
            Some(target) => {
                let value = read_operand(cpu, target);
                let result = transform(cpu, instruction, value);
                write_operand(cpu, target, result);
                Ok((cpu.pc.wrapping_add(2), cycles_on(target)))
            },
            None => Err(NotImplemented { instruction }),
        },
    }
}

/// Twice a byte, less 256 where that does not fit a byte.
spec fn doubled(value: u8) -> int {
    if value >= 128 {
        2 * value - 256
    } else {
        2 * value
    }
}

proof fn lemma_moved_bits(value: u8, carry: bool)
    by (bit_vector)
    ensures
        (value & 0x01 == 0x01) == ((value >> 0u8) & 0b1 != 0),
        (value & 0x80 == 0x80) == ((value >> 7u8) & 0b1 != 0),
        (value & 0x01 == 0x01) == (value % 2 == 1),
        (value & 0x80 == 0x80) == (value >= 128),
        ((((if carry {
            0x80u8
        } else {
            0u8
        }) | (value >> 1)) >> 7u8) & 0b1 != 0) == carry,
        ((((value << 1) | (if carry {
            1u8
        } else {
            0u8
        })) >> 0u8) & 0b1 != 0) == carry,
{
}

proof fn lemma_moves_right(value: u8, carry: bool)
    by (bit_vector)
    ensures
        (if carry {
            0x80u8
        } else {
            0u8
        }) | (value >> 1) == value / 2 + (if carry {
            128int
        } else {
            0
        }),
        (value >> 1) | (value << 7) == value / 2 + (value % 2) * 128,
        value >> 1 == value / 2,
        (value & 0x80) | (value >> 1) == value / 2 + (if value >= 128 {
            128int
        } else {
            0
        }),
        ((value & 0xf) << 4) | ((value & 0xf0) >> 4) == (value % 16) * 16 + value / 16,
{
}

proof fn lemma_moves_left(value: u8, carry: bool)
    by (bit_vector)
    ensures
        (value << 1) | (if carry {
            1u8
        } else {
            0u8
        }) == doubled(value) + (if carry {
            1int
        } else {
            0
        }),
        (value << 1) | (value >> 7) == doubled(value) + value / 128,
        value << 1 == doubled(value),
{
}

/// Rotation to the right through the carry flag: the carry flag afterwards
/// is bit 0 of the value before, and bit 7 of the result is the carry flag
/// before.
pub proof fn lemma_rotate_right_through_carry(value: u8, carry: bool, set_zero: bool)
    ensures
        rotated_right_through_carry(value, carry, set_zero).flags.carry == bit_is_set(
            value,
            BitPosition::B0,
        ),
        bit_is_set(rotated_right_through_carry(value, carry, set_zero).value, BitPosition::B7)
            == carry,
{
    lemma_moved_bits(value, carry);
}

/// Rotation to the left through the carry flag: the carry flag afterwards
/// is bit 7 of the value before, and bit 0 of the result is the carry flag
/// before.
pub proof fn lemma_rotate_left_through_carry(value: u8, carry: bool, set_zero: bool)
    ensures
        rotated_left_through_carry(value, carry, set_zero).flags.carry == bit_is_set(
            value,
            BitPosition::B7,
        ),
        bit_is_set(rotated_left_through_carry(value, carry, set_zero).value, BitPosition::B0)
            == carry,
{
    lemma_moved_bits(value, carry);
}

/// The rotates, the shifts and the swap in numbers. A move to the right
/// halves the value and one to the left doubles it modulo 256; what enters
/// at the top weighs 128 and what enters at the bottom 1; the swap
/// exchanges the value modulo 16 and the value divided by 16. The bit that
/// leaves to the right is the value modulo 2, and one leaves to the left
/// where the value is at least 128.
pub proof fn lemma_shifts_are_arithmetic(value: u8, carry: bool, set_zero: bool)
    ensures
        rotated_right_through_carry(value, carry, set_zero).value == value / 2 + (if carry {
            128int
        } else {
            0
        }),
        rotated_left_through_carry(value, carry, set_zero).value == (2 * value) % 256 + (if carry {
            1int
        } else {
            0
        }),
        rotated_left(value, set_zero).value == (2 * value) % 256 + value / 128,
        rotated_right(value, set_zero).value == value / 2 + (value % 2) * 128,
        shifted_right_logical(value).value == value / 2,
        shifted_right_arithmetic(value).value == value / 2 + (if value >= 128 {
            128int
        } else {
            0
        }),
        shifted_left_arithmetic(value).value == (2 * value) % 256,
        swapped_nibbles(value).value == (value % 16) * 16 + value / 16,
        bottom_bit(value) == (value % 2 == 1),
        top_bit(value) == (value >= 128),
{
    lemma_moved_bits(value, carry);
    lemma_moves_right(value, carry);
    lemma_moves_left(value, carry);
}

proof fn lemma_single_bit(value: u8, changed: u8, other: u8)
    by (bit_vector)
    requires
        changed < 8,
        other < 8,
    ensures
        ((value | (1u8 << changed)) >> other) & 0b1 != 0 <==> other == changed || (value >> other)
            & 0b1 != 0,
        ((value & !(1u8 << changed)) >> other) & 0b1 != 0 <==> other != changed && (value
            >> other) & 0b1 != 0,
{
}

/// Setting a bit sets that bit and resetting one clears it, and either
/// leaves the seven other bits as they were.
pub proof fn lemma_set_and_reset(value: u8, changed: BitPosition, other: BitPosition)
    ensures
        bit_is_set(with_bit_set(value, changed), other) == (other == changed || bit_is_set(
            value,
            other,
        )),
        bit_is_set(with_bit_reset(value, changed), other) == (other != changed && bit_is_set(
            value,
            other,
        )),
{
    lemma_single_bit(value, changed.index(), other.index());
}

/// An instruction of the prefixed set goes on two bytes after the prefix
/// whatever its operand, and costs 8 cycles on a register and 16 on the byte
/// at HL. A rotate of the accumulator goes on one byte after its opcode and
/// costs 4 cycles. Neither moves the program counter or the stack pointer.
pub proof fn lemma_manipulation_cost(machine: Machine, instruction: Instruction)
    ensures
        match manipulation_outcome(machine, instruction) {
            Some(outcome) => {
                &&& outcome.machine.pc == machine.pc
                &&& outcome.machine.sp == machine.sp
                &&& if instruction is RRA || instruction is RLA || instruction is RRCA
                    || instruction is RLCA {
                    outcome.next_pc == offset(machine.pc, 1) && outcome.cycles == 4
                } else {
                    outcome.next_pc == offset(machine.pc, 2) && (outcome.cycles == 8
                        || outcome.cycles == 16)
                }
            },
            None => true,
        },
{
}

/// The four rotates of the accumulator clear the zero flag whatever the
/// result; the rotates, the shifts and the swap of the prefixed set set it
/// exactly where the result is zero. All of them clear subtract and
/// half-carry.
pub proof fn lemma_zero_flag_of_rotates(instruction: Instruction, value: u8, flags: FlagsRegister)
    ensures
        ({
            let shifted = transformed(instruction, value, flags);
            &&& instruction is RRA || instruction is RLA || instruction is RRCA
                || instruction is RLCA ==> !shifted.flags.zero && !shifted.flags.subtract
                && !shifted.flags.half_carry
            &&& instruction is RR || instruction is RL || instruction is RRC || instruction is RLC
                || instruction is SRL || instruction is SRA || instruction is SLA
                || instruction is SWAP ==> shifted.flags.zero == (shifted.value == 0)
                && !shifted.flags.subtract && !shifted.flags.half_carry
        }),
{
}

} // verus!
