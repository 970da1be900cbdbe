//! The arithmetic and logic unit: additions, subtractions, comparisons,
//! increments, the logical operations, the decimal adjustment, and the
//! 16-bit addition to HL.
//!
//! Every operation it carries out is one byte wide. One on 8-bit operands
//! costs 4 cycles, one on a register pair 8, as on the hardware.

use vstd::prelude::*;
use crate::cpu::flags_register::FlagsRegister;
use crate::cpu::instruction::{ADDHLTarget, ArithmeticTarget, IncDecTarget, Instruction};
use crate::cpu::machine::{offset, Machine, Outcome};
use crate::cpu::registers::Registers;
use crate::cpu::{performed, NotImplemented, CPU};

verus! {

/// The carry that enters an addition or subtraction: 1 where the operation
/// takes the carry flag in and the flag is set, else 0.
pub open spec fn carry_in(flags: FlagsRegister, with_carry: bool) -> int {
    if with_carry && flags.carry {
        1
    } else {
        0
    }
}

/// The low four bits of a byte.
pub open spec fn low_nibble(value: u8) -> u8 {
    value & 0xF
}

/// A number from -256 to 511 brought into the range of a byte by adding or
/// taking off 256: its value modulo 256.
pub open spec fn wrap_byte(number: int) -> u8
    recommends
        -256 <= number < 512,
{
    if number > 255 {
        (number - 256) as u8
    } else if number < 0 {
        (number + 256) as u8
    } else {
        number as u8
    }
}

/// The sum of accumulator, operand and carry, modulo 256.
pub open spec fn add_value(a: u8, value: u8, carry: int) -> u8 {
    wrap_byte(a + value + carry)
}

/// The flags after an addition: carry where the sum does not fit a byte,
/// half-carry where the sum of the low nibbles does not fit a nibble.
pub open spec fn add_flags(a: u8, value: u8, carry: int) -> FlagsRegister {
    FlagsRegister {
        zero: add_value(a, value, carry) == 0,
        subtract: false,
        half_carry: low_nibble(a) + low_nibble(value) + carry > 0xF,
        carry: a + value + carry > 0xFF,
    }
}

/// The accumulator less operand and borrow, modulo 256.
pub open spec fn sub_value(a: u8, value: u8, borrow: int) -> u8 {
    wrap_byte(a - value - borrow)
}

/// The flags after a subtraction or comparison: carry where the accumulator
/// is less than operand plus borrow, half-carry where its low nibble is less
/// than the operand's plus borrow.
pub open spec fn sub_flags(a: u8, value: u8, borrow: int) -> FlagsRegister {
    FlagsRegister {
        zero: sub_value(a, value, borrow) == 0,
        subtract: true,
        half_carry: low_nibble(a) < low_nibble(value) + borrow,
        carry: a < value + borrow,
    }
}

/// A byte plus one, modulo 256.
pub open spec fn inc_value(value: u8) -> u8 {
    wrap_byte(value + 1)
}

/// The flags after an 8-bit increment: half-carry where the low nibble was
/// 0xF. The carry flag stays.
pub open spec fn inc_flags(value: u8, flags: FlagsRegister) -> FlagsRegister {
    FlagsRegister {
        zero: inc_value(value) == 0,
        subtract: false,
        half_carry: low_nibble(value) == 0xF,
        carry: flags.carry,
    }
}

/// A byte less one, modulo 256.
pub open spec fn dec_value(value: u8) -> u8 {
    wrap_byte(value - 1)
}

/// The flags after an 8-bit decrement: half-carry where the low nibble was
/// zero. The carry flag stays.
pub open spec fn dec_flags(value: u8, flags: FlagsRegister) -> FlagsRegister {
    FlagsRegister {
        zero: dec_value(value) == 0,
        subtract: true,
        half_carry: low_nibble(value) == 0,
        carry: flags.carry,
    }
}

/// What the decimal adjustment adds to the accumulator, given the flags that
/// the preceding addition or subtraction left. After an addition: 0x60 where
/// carry is set or the value is above 0x99, and 0x06 where half-carry is set
/// or the low nibble is above 9. After a subtraction: 0x9A or 0xA0 where
/// carry is set, with and without half-carry, and 0xFA where half-carry
/// alone is set.
pub open spec fn daa_correction(value: u8, flags: FlagsRegister) -> int {
    if !flags.subtract {
        (if flags.carry || value > 0x99 {
            0x60int
        } else {
            0
        }) + (if flags.half_carry || low_nibble(value) > 9 {
            0x06int
        } else {
            0
        })
    } else if flags.carry {
        if flags.half_carry {
            0x9A
        } else {
            0xA0
        }
    } else if flags.half_carry {
        0xFA
    } else {
        0
    }
}

/// The accumulator after the decimal adjustment: the value plus the
/// correction, modulo 256.
pub open spec fn daa_value(value: u8, flags: FlagsRegister) -> u8 {
    wrap_byte(value + daa_correction(value, flags))
}

/// The flags after the decimal adjustment: half-carry is cleared, subtract
/// stays, and carry is set where it was set or, after an addition, where the
/// value was above 0x99.
pub open spec fn daa_flags(value: u8, flags: FlagsRegister) -> FlagsRegister {
    FlagsRegister {
        zero: daa_value(value, flags) == 0,
        subtract: flags.subtract,
        half_carry: false,
        carry: flags.carry || (!flags.subtract && value > 0x99),
    }
}

/// HL plus a 16-bit operand, modulo 0x10000.
pub open spec fn add_hl_value(hl: u16, value: u16) -> u16 {
    offset(hl, value as int)
}

/// The flags after an addition to HL: zero and carry come from the 16-bit
/// sum, subtract is cleared, and half-carry is left as it was.
pub open spec fn add_hl_flags(hl: u16, value: u16, flags: FlagsRegister) -> FlagsRegister {
    FlagsRegister {
        zero: add_hl_value(hl, value) == 0,
        subtract: false,
        half_carry: flags.half_carry,
        carry: hl + value > 0xFFFF,
    }
}

/// The value of the second operand of an 8-bit operation. Only a register
/// gives one: the byte at HL and the immediate byte are not carried out.
pub open spec fn operand_value(registers: Registers, target: ArithmeticTarget) -> Option<u8> {
    match target {
        ArithmeticTarget::A => Some(registers.a),
        ArithmeticTarget::B => Some(registers.b),
        ArithmeticTarget::C => Some(registers.c),
        ArithmeticTarget::D => Some(registers.d),
        ArithmeticTarget::E => Some(registers.e),
        ArithmeticTarget::H => Some(registers.h),
        ArithmeticTarget::L => Some(registers.l),
        ArithmeticTarget::HLI => None,
        ArithmeticTarget::D8 => None,
    }
}

/// The 16-bit operand of an addition to HL.
pub open spec fn add_hl_operand_value(machine: Machine, target: ADDHLTarget) -> u16 {
    match target {
        ADDHLTarget::BC => machine.registers.bc(),
        ADDHLTarget::DE => machine.registers.de(),
        ADDHLTarget::HL => machine.registers.hl(),
        ADDHLTarget::SP => machine.sp,
    }
}

/// The outcome of an 8-bit operation that leaves `a` in the accumulator and
/// `flags` in the flags.
pub open spec fn accumulate(machine: Machine, a: u8, flags: FlagsRegister) -> Outcome {
    machine.with_registers(Registers { a, f: flags, ..machine.registers }).proceed(1, 4)
}

/// The registers after an increment (`up`) or decrement of `target`, or
/// `None` where the target is the byte at HL or the stack pointer, which
/// are not carried out. On a pair the flags stay.
pub open spec fn stepped(registers: Registers, target: IncDecTarget, up: bool) -> Option<
    Registers,
> {
    let f = registers.f;
    let delta: int = if up {
        1
    } else {
        -1
    };
    match target {
        IncDecTarget::A => Some(
            Registers {
                a: step_value(registers.a, up),
                f: step_flags(registers.a, f, up),
                ..registers
            },
        ),
        IncDecTarget::B => Some(
            Registers {
                b: step_value(registers.b, up),
                f: step_flags(registers.b, f, up),
                ..registers
            },
        ),
        IncDecTarget::C => Some(
            Registers {
                c: step_value(registers.c, up),
                f: step_flags(registers.c, f, up),
                ..registers
            },
        ),
        IncDecTarget::D => Some(
            Registers {
                d: step_value(registers.d, up),
                f: step_flags(registers.d, f, up),
                ..registers
            },
        ),
        IncDecTarget::E => Some(
            Registers {
                e: step_value(registers.e, up),
                f: step_flags(registers.e, f, up),
                ..registers
            },
        ),
        IncDecTarget::H => Some(
            Registers {
                h: step_value(registers.h, up),
                f: step_flags(registers.h, f, up),
                ..registers
            },
        ),
        IncDecTarget::L => Some(
            Registers {
                l: step_value(registers.l, up),
                f: step_flags(registers.l, f, up),
                ..registers
            },
        ),
        IncDecTarget::BC => Some(registers.with_bc(offset(registers.bc(), delta))),
        IncDecTarget::DE => Some(registers.with_de(offset(registers.de(), delta))),
        IncDecTarget::HL => Some(registers.with_hl(offset(registers.hl(), delta))),
        IncDecTarget::HLI => None,
        IncDecTarget::SP => None,
    }
}

/// A byte one up or one down.
pub open spec fn step_value(value: u8, up: bool) -> u8 {
    if up {
        inc_value(value)
    } else {
        dec_value(value)
    }
}

/// The flags after a byte went one up or one down.
pub open spec fn step_flags(value: u8, flags: FlagsRegister, up: bool) -> FlagsRegister {
    if up {
        inc_flags(value, flags)
    } else {
        dec_flags(value, flags)
    }
}

/// Whether an increment or decrement works on a register pair.
pub open spec fn is_pair(target: IncDecTarget) -> bool {
    target is BC || target is DE || target is HL || target is SP
}

/// The outcome of an increment or decrement.
pub open spec fn step_outcome(machine: Machine, target: IncDecTarget, up: bool) -> Option<
    Outcome,
> {
    match stepped(machine.registers, target, up) {
        Some(registers) => Some(
            machine.with_registers(registers).proceed(
                1,
                if is_pair(target) {
                    8
                } else {
                    4
                },
            ),
        ),
        None => None,
    }
}

/// The outcome of ADD, ADC, SUB, SBC or CP with `target`. ADC and SBC take
/// the carry flag in. CP sets the flags as SUB does and leaves the
/// accumulator as it was.
pub open spec fn sum_outcome(machine: Machine, instruction: Instruction, target: ArithmeticTarget)
    -> Option<Outcome> {
    let a = machine.registers.a;
    let carry = carry_in(machine.registers.f, instruction is ADC || instruction is SBC);
    match operand_value(machine.registers, target) {
        Some(value) => Some(
            if instruction is ADD || instruction is ADC {
                accumulate(machine, add_value(a, value, carry), add_flags(a, value, carry))
            } else if instruction is CP {
                accumulate(machine, a, sub_flags(a, value, carry))
            } else {
                accumulate(machine, sub_value(a, value, carry), sub_flags(a, value, carry))
            },
        ),
        None => None,
    }
}

/// The outcome of AND, XOR or OR of the accumulator with `target`. The
/// accumulator alone changes: the flags stay as they were.
pub open spec fn logic_outcome(
    machine: Machine,
    instruction: Instruction,
    target: ArithmeticTarget,
) -> Option<Outcome> {
    let a = machine.registers.a;
    match operand_value(machine.registers, target) {
        Some(value) => Some(
            accumulate(
                machine,
                if instruction is AND {
                    a & value
                } else if instruction is XOR {
                    a ^ value
                } else {
                    a | value
                },
                machine.registers.f,
            ),
        ),
        None => None,
    }
}

/// What the unit does with an instruction: the outcome, or `None` where the
/// instruction is not carried out. That holds of an 8-bit operation on the
/// byte at HL or on an immediate byte, of an increment or decrement of the
/// byte at HL or of the stack pointer, of the addition to the stack
/// pointer, of the two carry-flag instructions, and of every instruction of
/// another unit.
pub open spec fn alu_outcome(machine: Machine, instruction: Instruction) -> Option<Outcome> {
    let registers = machine.registers;
    let a = registers.a;
    match instruction {
        Instruction::ADD(target)
        | Instruction::ADC(target)
        | Instruction::SUB(target)
        | Instruction::SBC(target)
        | Instruction::CP(target) => sum_outcome(machine, instruction, target),
        Instruction::AND(target) | Instruction::XOR(target) | Instruction::OR(target) => {
            logic_outcome(machine, instruction, target)
        },
        Instruction::INC(target) => step_outcome(machine, target, true),
        Instruction::DEC(target) => step_outcome(machine, target, false),
        Instruction::DAA => Some(
            accumulate(machine, daa_value(a, registers.f), daa_flags(a, registers.f)),
        ),
        Instruction::CPL => Some(
            accumulate(
                machine,
                !a,
                FlagsRegister { subtract: true, half_carry: true, ..registers.f },
            ),
        ),
        Instruction::ADDHL(target) => {
            let hl = registers.hl();
            let value = add_hl_operand_value(machine, target);
            Some(
                machine.with_registers(
                    Registers { f: add_hl_flags(hl, value, registers.f), ..registers }.with_hl(
                        add_hl_value(hl, value),
                    ),
                ).proceed(1, 8),
            )
        },
        _ => None,
    }
}

/// Reads the second operand of an 8-bit operation out of the registers.
pub fn operand(registers: &Registers, target: ArithmeticTarget) -> (value: Option<u8>)
    ensures
        value == operand_value(*registers, target),
{
    match target {
        ArithmeticTarget::A => Some(registers.a),
        ArithmeticTarget::B => Some(registers.b),
        ArithmeticTarget::C => Some(registers.c),
        ArithmeticTarget::D => Some(registers.d),
        ArithmeticTarget::E => Some(registers.e),
        ArithmeticTarget::H => Some(registers.h),
        ArithmeticTarget::L => Some(registers.l),
        ArithmeticTarget::HLI => None,
        ArithmeticTarget::D8 => None,
    }
}

/// Adds `value`, and the carry flag where `with_carry` holds, to the
/// accumulator. Returns the sum and sets all four flags; the accumulator
/// itself is left for the caller to write.
pub fn add(cpu: &mut CPU, value: u8, with_carry: bool) -> (result: u8)
    ensures
        result == add_value(
            old(cpu).registers.a,
            value,
            carry_in(old(cpu).registers.f, with_carry),
        ),
        final(cpu)@ == old(cpu)@.with_registers(
            Registers {
                f: add_flags(
                    old(cpu).registers.a,
                    value,
                    carry_in(old(cpu).registers.f, with_carry),
                ),
                ..old(cpu).registers
            },
        ),
{
    let a = cpu.registers.a;
    let carry: u16 = if with_carry && cpu.registers.f.carry {
        1
    } else {
        0
    };
    let sum: u16 = a as u16 + value as u16 + carry;
    let result: u8 = if sum > 0xFF {
        (sum - 0x100) as u8
    } else {
        sum as u8
    };
    assert(a & 0xF <= 0xF && value & 0xF <= 0xF) by (bit_vector);
    cpu.registers.f.zero = result == 0;
    cpu.registers.f.subtract = false;
    cpu.registers.f.carry = sum > 0xFF;
    cpu.registers.f.half_carry = (a & 0xF) + (value & 0xF) + carry as u8 > 0xF;
    result
}

/// Subtracts `value`, and the carry flag where `with_carry` holds, from the
/// accumulator. Returns the difference and sets all four flags; the
/// accumulator itself is left for the caller to write.
pub fn sub(cpu: &mut CPU, value: u8, with_carry: bool) -> (result: u8)
    ensures
        result == sub_value(
            old(cpu).registers.a,
            value,
            carry_in(old(cpu).registers.f, with_carry),
        ),
        final(cpu)@ == old(cpu)@.with_registers(
            Registers {
                f: sub_flags(
                    old(cpu).registers.a,
                    value,
                    carry_in(old(cpu).registers.f, with_carry),
                ),
                ..old(cpu).registers
            },
        ),
{
    let a = cpu.registers.a;
    let borrow: u8 = if with_carry && cpu.registers.f.carry {
        1
    } else {
        0
    };
    let result = a.wrapping_sub(value).wrapping_sub(borrow);
    assert(value & 0xF <= 0xF) by (bit_vector);
    cpu.registers.f.zero = result == 0;
    cpu.registers.f.subtract = true;
    cpu.registers.f.carry = (a as u16) < value as u16 + borrow as u16;
    cpu.registers.f.half_carry = (a & 0xF) < (value & 0xF) + borrow;
    result
}

/// Increments a byte. Returns it and sets zero, subtract and half-carry; the
/// carry flag stays.
pub fn inc_8bit(cpu: &mut CPU, value: u8) -> (result: u8)
    ensures
        result == inc_value(value),
        final(cpu)@ == old(cpu)@.with_registers(
            Registers { f: inc_flags(value, old(cpu).registers.f), ..old(cpu).registers },
        ),
{
    let new_value = value.wrapping_add(1);
    cpu.registers.f.zero = new_value == 0;
    cpu.registers.f.subtract = false;
    cpu.registers.f.half_carry = value & 0xF == 0xF;
    new_value
}

/// Decrements a byte. Returns it and sets zero, subtract and half-carry; the
/// carry flag stays.
pub fn dec_8bit(cpu: &mut CPU, value: u8) -> (result: u8)
    ensures
        result == dec_value(value),
        final(cpu)@ == old(cpu)@.with_registers(
            Registers { f: dec_flags(value, old(cpu).registers.f), ..old(cpu).registers },
        ),
{
    let new_value = value.wrapping_sub(1);
    cpu.registers.f.zero = new_value == 0;
    cpu.registers.f.subtract = true;
    cpu.registers.f.half_carry = value & 0xF == 0x0;
    new_value
}

/// Adjusts `value` to packed decimal after an addition or subtraction, by
/// the flags that it left. Returns the adjusted byte and sets zero and
/// carry, and clears half-carry.
pub fn decimal_adjust(cpu: &mut CPU, value: u8) -> (result: u8)
    ensures
        result == daa_value(value, old(cpu).registers.f),
        final(cpu)@ == old(cpu)@.with_registers(
            Registers { f: daa_flags(value, old(cpu).registers.f), ..old(cpu).registers },
        ),
{
    let flags = cpu.registers.f;
    let mut carry = false;
    let result = if !flags.subtract {
        let mut result = value;
        if flags.carry || value > 0x99 {
            carry = true;
            result = result.wrapping_add(0x60);
        }
        if flags.half_carry || value & 0x0F > 0x09 {
            result = result.wrapping_add(0x06);
        }
        result
    } else if flags.carry {
        carry = true;
        let correction: u8 = if flags.half_carry {
            0x9A
        } else {
            0xA0
        };
        value.wrapping_add(correction)
    } else if flags.half_carry {
        value.wrapping_add(0xFA)
    } else {
        value
    };
    cpu.registers.f.zero = result == 0;
    cpu.registers.f.half_carry = false;
    cpu.registers.f.carry = carry;
    result
}

/// Adds `value` to HL. Returns the sum and sets zero and carry and clears
/// subtract; HL itself is left for the caller to write.
pub fn add_hl(cpu: &mut CPU, value: u16) -> (result: u16)
    ensures
        result == add_hl_value(old(cpu).registers.hl(), value),
        final(cpu)@ == old(cpu)@.with_registers(
            Registers {
                f: add_hl_flags(old(cpu).registers.hl(), value, old(cpu).registers.f),
                ..old(cpu).registers
            },
        ),
{
    let hl = cpu.registers.get_hl();
    let new_value = hl.wrapping_add(value);
    cpu.registers.f.zero = new_value == 0;
    cpu.registers.f.subtract = false;
    cpu.registers.f.carry = hl as u32 + value as u32 > 0xFFFF;
    new_value
}

/// A 16-bit value one up or one down, wrapping round.
fn step_word(value: u16, up: bool) -> (result: u16)
    ensures
        result == offset(
            value,
            if up {
                1
            } else {
                -1
            },
        ),
{
    if up {
        value.wrapping_add(1)
    } else {
        value.wrapping_sub(1)
    }
}

/// Increments (`up`) or decrements a byte and sets the flags for it.
fn step_byte(cpu: &mut CPU, value: u8, up: bool) -> (result: u8)
    ensures
        result == step_value(value, up),
        final(cpu)@ == old(cpu)@.with_registers(
            Registers { f: step_flags(value, old(cpu).registers.f, up), ..old(cpu).registers },
        ),
{
    if up {
        inc_8bit(cpu, value)
    } else {
        dec_8bit(cpu, value)
    }
}

/// Increments (`up`) or decrements what `target` names. Returns whether the
/// target is one that is carried out; where it is not, nothing changes.
fn step_target(cpu: &mut CPU, target: IncDecTarget, up: bool) -> (done: bool)
    ensures
        match stepped(old(cpu).registers, target, up) {
            Some(registers) => done && final(cpu)@ == old(cpu)@.with_registers(registers),
            None => !done && final(cpu)@ == old(cpu)@,
        },
{
    match target {
        IncDecTarget::A => {
            let result = step_byte(cpu, cpu.registers.a, up);
            cpu.registers.a = result;
        },
        IncDecTarget::B => {
            let result = step_byte(cpu, cpu.registers.b, up);
            cpu.registers.b = result;
        },
        IncDecTarget::C => {
            let result = step_byte(cpu, cpu.registers.c, up);
            cpu.registers.c = result;
        },
        IncDecTarget::D => {
            let result = step_byte(cpu, cpu.registers.d, up);
            cpu.registers.d = result;
        },
        IncDecTarget::E => {
            let result = step_byte(cpu, cpu.registers.e, up);
            cpu.registers.e = result;
        },
        IncDecTarget::H => {
            let result = step_byte(cpu, cpu.registers.h, up);
            cpu.registers.h = result;
        },
        IncDecTarget::L => {
            let result = step_byte(cpu, cpu.registers.l, up);
            cpu.registers.l = result;
        },
        IncDecTarget::BC => {
            let value = step_word(cpu.registers.get_bc(), up);
            cpu.registers.set_bc(value);
        },
        IncDecTarget::DE => {
            let value = step_word(cpu.registers.get_de(), up);
            cpu.registers.set_de(value);
        },
        IncDecTarget::HL => {
            let value = step_word(cpu.registers.get_hl(), up);
            cpu.registers.set_hl(value);
        },
        IncDecTarget::HLI => {
            return false;
        },
        IncDecTarget::SP => {
            return false;
        },
    }
    true
}

/// ADD, ADC, SUB, SBC or CP of the accumulator with `target`.
fn sum(cpu: &mut CPU, instruction: Instruction, target: ArithmeticTarget) -> (result: Result<
    (u16, u8),
    NotImplemented,
>)
    requires
        instruction is ADD || instruction is ADC || instruction is SUB || instruction is SBC
            || instruction is CP,
    ensures
        performed(
            old(cpu)@,
            final(cpu)@,
            result,
            sum_outcome(old(cpu)@, instruction, target),
            instruction,
        ),
{
    let next_pc = cpu.pc.wrapping_add(1);
    match operand(&cpu.registers, target) {
        Some(value) => {
            match instruction {
                Instruction::ADD(_) => cpu.registers.a = self::add(cpu, value, false),
                Instruction::ADC(_) => cpu.registers.a = self::add(cpu, value, true),
                Instruction::SUB(_) => cpu.registers.a = self::sub(cpu, value, false),
                Instruction::SBC(_) => cpu.registers.a = self::sub(cpu, value, true),
                // as SUB, but the difference is dropped
                _ => {
                    let _ = self::sub(cpu, value, false);
                },
            }
            Ok((next_pc, 4))
        },
        None => Err(NotImplemented { instruction }),
    }
}

/// The decimal adjustment of the accumulator.
fn adjust(cpu: &mut CPU) -> (result: (u16, u8))
    ensures
        final(cpu)@ == alu_outcome(old(cpu)@, Instruction::DAA).unwrap().machine,
        result.0 == alu_outcome(old(cpu)@, Instruction::DAA).unwrap().next_pc,
        result.1 == alu_outcome(old(cpu)@, Instruction::DAA).unwrap().cycles,
{
    let next_pc = cpu.pc.wrapping_add(1);
    let value = cpu.registers.a;
    let result = decimal_adjust(cpu, value);
    cpu.registers.a = result;
    (next_pc, 4)
}

/// The bitwise complement of the accumulator.
fn complement(cpu: &mut CPU) -> (result: (u16, u8))
    ensures
        final(cpu)@ == alu_outcome(old(cpu)@, Instruction::CPL).unwrap().machine,
        result.0 == alu_outcome(old(cpu)@, Instruction::CPL).unwrap().next_pc,
        result.1 == alu_outcome(old(cpu)@, Instruction::CPL).unwrap().cycles,
{
    let next_pc = cpu.pc.wrapping_add(1);
    let a = cpu.registers.a;
    cpu.registers.a = !a;
    cpu.registers.f.subtract = true;
    cpu.registers.f.half_carry = true;
    (next_pc, 4)
}

/// The addition of a register pair or of the stack pointer to HL.
fn add_to_hl(cpu: &mut CPU, target: ADDHLTarget) -> (result: (u16, u8))
    ensures
        final(cpu)@ == alu_outcome(old(cpu)@, Instruction::ADDHL(target)).unwrap().machine,
        result.0 == alu_outcome(old(cpu)@, Instruction::ADDHL(target)).unwrap().next_pc,
        result.1 == alu_outcome(old(cpu)@, Instruction::ADDHL(target)).unwrap().cycles,
{
    let next_pc = cpu.pc.wrapping_add(1);
    let value = match target {
        ADDHLTarget::BC => cpu.registers.get_bc(),
        ADDHLTarget::DE => cpu.registers.get_de(),
        ADDHLTarget::HL => cpu.registers.get_hl(),
        ADDHLTarget::SP => cpu.sp,
    };
    let result = add_hl(cpu, value);
    cpu.registers.set_hl(result);
    (next_pc, 8)
}

/// AND, XOR or OR of the accumulator with `target`.
fn logic(cpu: &mut CPU, instruction: Instruction, target: ArithmeticTarget) -> (result: Result<
    (u16, u8),
    NotImplemented,
>)
    requires
        instruction is AND || instruction is XOR || instruction is OR,
    ensures
        performed(
            old(cpu)@,
            final(cpu)@,
            result,
            logic_outcome(old(cpu)@, instruction, target),
            instruction,
        ),
{
    let next_pc = cpu.pc.wrapping_add(1);
    match operand(&cpu.registers, target) {
        Some(value) => {
            match instruction {
                Instruction::AND(_) => cpu.registers.a &= value,
                Instruction::XOR(_) => cpu.registers.a ^= value,
                _ => cpu.registers.a |= value,
            }
            Ok((next_pc, 4))
        },
        None => Err(NotImplemented { instruction }),
    }
}

/// An increment (`up`) or decrement.
fn step(cpu: &mut CPU, instruction: Instruction, target: IncDecTarget, up: bool) -> (result:
    Result<(u16, u8), NotImplemented>)
    ensures
        performed(
            old(cpu)@,
            final(cpu)@,
            result,
            step_outcome(old(cpu)@, target, up),
            instruction,
        ),
{
    let next_pc = cpu.pc.wrapping_add(1);
    if step_target(cpu, target, up) {
        Ok((next_pc, step_cycles(target)))
    } else {
        Err(NotImplemented { instruction })
    }
}

/// Carries out an instruction of this unit on the CPU: changes registers and
/// flags as `alu_outcome` says and returns the program counter of the next
/// instruction and the cycles spent. The program counter itself is left for
/// the caller to commit. Where `alu_outcome` gives nothing, the CPU is left
/// untouched and the instruction comes back in the error.
pub fn execute(cpu: &mut CPU, instruction: Instruction) -> (result: Result<
    (u16, u8),
    NotImplemented,
>)
    ensures
        performed(
            old(cpu)@,
            final(cpu)@,
            result,
            alu_outcome(old(cpu)@, instruction),
            instruction,
        ),
{
    match instruction {
        Instruction::ADD(target) => sum(cpu, instruction, target),
        Instruction::ADC(target) => sum(cpu, instruction, target),
        Instruction::SUB(target) => sum(cpu, instruction, target),
        Instruction::SBC(target) => sum(cpu, instruction, target),
        Instruction::CP(target) => sum(cpu, instruction, target),
        Instruction::AND(target) => logic(cpu, instruction, target),
        Instruction::XOR(target) => logic(cpu, instruction, target),
        Instruction::OR(target) => logic(cpu, instruction, target),
        Instruction::INC(target) => step(cpu, instruction, target, true),
        Instruction::DEC(target) => step(cpu, instruction, target, false),
        Instruction::DAA => Ok(adjust(cpu)),
        Instruction::CPL => Ok(complement(cpu)),
        Instruction::ADDHL(target) => Ok(add_to_hl(cpu, target)),
        _ => Err(NotImplemented { instruction }),
    }
}

/// The cycles of an increment or decrement: 8 on a register pair, else 4.
fn step_cycles(target: IncDecTarget) -> (cycles: u8)
    ensures
        cycles == if is_pair(target) {
            8u8
        } else {
            4u8
        },
{
    match target {
        IncDecTarget::BC | IncDecTarget::DE | IncDecTarget::HL | IncDecTarget::SP => 8,
        _ => 4,
    }
}

/// Bringing a number into the range of a byte gives its value modulo 256.
pub proof fn lemma_wrap_byte_is_modular(number: int)
    requires
        -256 <= number < 512,
    ensures
        wrap_byte(number) == number % 256,
{
}

/// The low nibble of a byte is its value modulo 16.
pub proof fn lemma_low_nibble_is_modular(value: u8)
    ensures
        low_nibble(value) == value % 16,
{
    assert(value & 0xF == value % 16) by (bit_vector);
}

/// ADD of a register to the accumulator, with no carry taken in: the
/// accumulator ends as the sum modulo 256, carry is set exactly where the
/// sum is above 255, half-carry exactly where the sum of the two low
/// nibbles is above 0xF, zero exactly where the new accumulator is zero,
/// and subtract is cleared. Nothing else of the machine changes.
pub proof fn lemma_add_without_carry(machine: Machine, target: ArithmeticTarget)
    requires
        operand_value(machine.registers, target) is Some,
    ensures
        ({
            let a = machine.registers.a;
            let b = operand_value(machine.registers, target).unwrap();
            let outcome = alu_outcome(machine, Instruction::ADD(target)).unwrap();
            let after = outcome.machine.registers;
            &&& alu_outcome(machine, Instruction::ADD(target)) is Some
            &&& after.a == (a + b) % 256
            &&& after.f.carry == (a + b > 255)
            &&& after.f.half_carry == ((a & 0xF) + (b & 0xF) > 0xF)
            &&& after.f.zero == (after.a == 0)
            &&& after.f.subtract == false
            &&& outcome.machine == machine.with_registers(
                Registers { a: after.a, f: after.f, ..machine.registers },
            )
        }),
{
}

/// ADC, SUB and SBC in numbers: with the carry flag counted as 0 or 1, the
/// accumulator ends as the sum, or the difference, modulo 256, and carry
/// says that the sum went above 255, or the difference below zero.
pub proof fn lemma_sum_is_modular(a: u8, value: u8, carry: int)
    requires
        0 <= carry <= 1,
    ensures
        add_value(a, value, carry) == (a + value + carry) % 256,
        add_flags(a, value, carry).carry == (a + value + carry > 255),
        add_flags(a, value, carry).half_carry == (a % 16 + value % 16 + carry > 15),
        sub_value(a, value, carry) == (a - value - carry) % 256,
        sub_flags(a, value, carry).carry == (a - value - carry < 0),
        sub_flags(a, value, carry).half_carry == (a % 16 - value % 16 - carry < 0),
{
    lemma_low_nibble_is_modular(a);
    lemma_low_nibble_is_modular(value);
}

/// CP changes nothing but the flags, and leaves the flags that SUB of the
/// same operand leaves. It goes on at the same address and costs the same,
/// and is carried out for the same operands.
pub proof fn lemma_compare_is_subtract_without_store(machine: Machine, target: ArithmeticTarget)
    ensures
        match alu_outcome(machine, Instruction::SUB(target)) {
            Some(subtracted) => alu_outcome(machine, Instruction::CP(target)) == Some(
                Outcome {
                    machine: machine.with_registers(
                        Registers { f: subtracted.machine.registers.f, ..machine.registers },
                    ),
                    next_pc: subtracted.next_pc,
                    cycles: subtracted.cycles,
                },
            ),
            None => alu_outcome(machine, Instruction::CP(target)) is None,
        },
{
}

/// The addition to HL in numbers: HL ends as the sum modulo 0x10000, and
/// carry says that the sum went above 0xFFFF.
pub proof fn lemma_add_hl_is_modular(hl: u16, value: u16, flags: FlagsRegister)
    ensures
        add_hl_value(hl, value) == (hl + value) % 0x10000,
        add_hl_flags(hl, value, flags).carry == (hl + value > 0xFFFF),
        add_hl_flags(hl, value, flags).zero == ((hl + value) % 0x10000 == 0),
{
}

/// The complement of the accumulator in numbers: 255 less the accumulator.
pub proof fn lemma_complement_is_difference(a: u8)
    ensures
        !a == 255 - a,
{
    assert(!a == 255 - a) by (bit_vector);
}

/// An operation of this unit goes on one byte after its opcode, costs 4 or
/// 8 cycles, and leaves memory, stack pointer and program counter as they
/// were.
pub proof fn lemma_alu_cost(machine: Machine, instruction: Instruction)
    ensures
        match alu_outcome(machine, instruction) {
            Some(outcome) => {
                &&& outcome.next_pc == offset(machine.pc, 1)
                &&& outcome.cycles == 4 || outcome.cycles == 8
                &&& outcome.machine.memory == machine.memory
                &&& outcome.machine.sp == machine.sp
                &&& outcome.machine.pc == machine.pc
            },
            None => true,
        },
{
}

/// The packed decimal form of a number below 100: its tens in the high
/// nibble and its units in the low nibble.
pub open spec fn packed_decimal(number: int) -> int
    recommends
        0 <= number < 100,
{
    (number / 10) * 16 + number % 10
}

proof fn lemma_decimal_addition_by_digits(tens_x: int, units_x: int, tens_y: int, units_y: int)
    requires
        0 <= tens_x <= 9,
        0 <= units_x <= 9,
        0 <= tens_y <= 9,
        0 <= units_y <= 9,
    ensures
        ({
            let a = (16 * tens_x + units_x) as u8;
            let b = (16 * tens_y + units_y) as u8;
            let sum = add_value(a, b, 0);
            let flags = add_flags(a, b, 0);
            let units = units_x + units_y;
            let tens = tens_x + tens_y + (if units >= 10 {
                1int
            } else {
                0
            });
            &&& daa_value(sum, flags) == 16 * (if tens >= 10 {
                tens - 10
            } else {
                tens
            }) + (if units >= 10 {
                units - 10
            } else {
                units
            })
            &&& daa_flags(sum, flags).carry == (tens >= 10)
        }),
{
    let a = (16 * tens_x + units_x) as u8;
    let b = (16 * tens_y + units_y) as u8;
    let sum = add_value(a, b, 0);
    let flags = add_flags(a, b, 0);
    let units = units_x + units_y;
    let raw = 16 * (tens_x + tens_y) + units;
    lemma_low_nibble_is_modular(a);
    lemma_low_nibble_is_modular(b);
    lemma_low_nibble_is_modular(sum);
    assert(a % 16 == units_x);
    assert(b % 16 == units_y);
    assert(a + b == raw);
    assert(flags.half_carry == (units > 15));
    assert(flags.carry == (raw > 255));
    assert(sum == if raw > 255 {
        raw - 256
    } else {
        raw
    });
    assert(sum % 16 == if units > 15 {
        units - 16
    } else {
        units
    });
    assert((flags.half_carry || low_nibble(sum) > 9) == (units >= 10));
}

/// The decimal adjustment makes ADD an addition of packed decimals: after
/// the sum of the packed forms of two numbers below 100, it leaves the
/// packed form of their sum modulo 100, and carry says that the sum reached
/// 100.
pub proof fn lemma_decimal_addition(x: int, y: int)
    requires
        0 <= x < 100,
        0 <= y < 100,
    ensures
        ({
            let a = packed_decimal(x) as u8;
            let b = packed_decimal(y) as u8;
            let sum = add_value(a, b, 0);
            let flags = add_flags(a, b, 0);
            &&& daa_value(sum, flags) == packed_decimal((x + y) % 100)
            &&& daa_flags(sum, flags).carry == (x + y >= 100)
        }),
{
    lemma_decimal_addition_by_digits(x / 10, x % 10, y / 10, y % 10);
    let units = x % 10 + y % 10;
    let tens = x / 10 + y / 10 + (if units >= 10 {
        1int
    } else {
        0
    });
    let unit = if units >= 10 {
        units - 10
    } else {
        units
    };
    let ten = if tens >= 10 {
        tens - 10
    } else {
        tens
    };
    assert(x + y == 10 * tens + unit);
    assert((x + y) % 100 == 10 * ten + unit);
    assert((10 * ten + unit) / 10 == ten);
    assert((10 * ten + unit) % 10 == unit);
    assert((x + y >= 100) == (tens >= 10));
}

proof fn lemma_decimal_subtraction_by_digits(
    tens_x: int,
    units_x: int,
    tens_y: int,
    units_y: int,
)
    requires
        0 <= tens_x <= 9,
        0 <= units_x <= 9,
        0 <= tens_y <= 9,
        0 <= units_y <= 9,
    ensures
        ({
            let a = (16 * tens_x + units_x) as u8;
            let b = (16 * tens_y + units_y) as u8;
            let difference = sub_value(a, b, 0);
            let flags = sub_flags(a, b, 0);
            let units = units_x - units_y;
            let tens = tens_x - tens_y - (if units < 0 {
                1int
            } else {
                0
            });
            &&& daa_value(difference, flags) == 16 * (if tens < 0 {
                tens + 10
            } else {
                tens
            }) + (if units < 0 {
                units + 10
            } else {
                units
            })
            &&& daa_flags(difference, flags).carry == (tens < 0)
        }),
{
    let a = (16 * tens_x + units_x) as u8;
    let b = (16 * tens_y + units_y) as u8;
    let difference = sub_value(a, b, 0);
    let flags = sub_flags(a, b, 0);
    let raw = 16 * (tens_x - tens_y) + (units_x - units_y);
    lemma_low_nibble_is_modular(a);
    lemma_low_nibble_is_modular(b);
    assert(a % 16 == units_x);
    assert(b % 16 == units_y);
    assert(a - b == raw);
    assert(flags.half_carry == (units_x < units_y));
    assert(flags.carry == (raw < 0));
    assert(flags.subtract);
    assert(difference == if raw < 0 {
        raw + 256
    } else {
        raw
    });
}

/// The decimal adjustment makes SUB a subtraction of packed decimals: after
/// the difference of the packed forms of two numbers below 100, it leaves
/// the packed form of their difference modulo 100, and carry says that the
/// second number was the greater.
pub proof fn lemma_decimal_subtraction(x: int, y: int)
    requires
        0 <= x < 100,
        0 <= y < 100,
    ensures
        ({
            let a = packed_decimal(x) as u8;
            let b = packed_decimal(y) as u8;
            let difference = sub_value(a, b, 0);
            let flags = sub_flags(a, b, 0);
            &&& daa_value(difference, flags) == packed_decimal((x - y) % 100)
            &&& daa_flags(difference, flags).carry == (x < y)
        }),
{
    lemma_decimal_subtraction_by_digits(x / 10, x % 10, y / 10, y % 10);
    let units = x % 10 - y % 10;
    let tens = x / 10 - y / 10 - (if units < 0 {
        1int
    } else {
        0
    });
    let unit = if units < 0 {
        units + 10
    } else {
        units
    };
    let ten = if tens < 0 {
        tens + 10
    } else {
        tens
    };
    assert(x - y == 10 * tens + unit);
    assert((x - y) % 100 == 10 * ten + unit);
    assert((10 * ten + unit) / 10 == ten);
    assert((10 * ten + unit) % 10 == unit);
    assert((x < y) == (tens < 0));
}

} // verus!
