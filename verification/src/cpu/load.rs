//! The load unit: transfers between registers, memory and the two 16-bit
//! pointers. No load but that of SP plus displacement into HL touches the
//! flags.

use vstd::prelude::*;
use crate::cpu::flags_register::FlagsRegister;
use crate::cpu::instruction::{
    Indirect,
    Instruction,
    LoadByteSource,
    LoadByteTarget,
    LoadType,
    LoadWordTarget,
};
use crate::cpu::machine::{offset, signed_byte, Machine, Outcome};
use crate::cpu::registers::{high_byte, low_byte, split_word, Registers};
use crate::cpu::{performed, NotImplemented, CPU};

verus! {

/// The address in the page 0xFF00 to 0xFFFF that a one-byte offset names.
pub open spec fn high_page(low: u8) -> u16 {
    (0xFF00 + low) as u16
}

/// The byte that the source of a byte load gives: a register, the byte
/// after the opcode, or the byte at HL.
pub open spec fn source_value(machine: Machine, source: LoadByteSource) -> u8 {
    match source {
        LoadByteSource::A => machine.registers.a,
        LoadByteSource::B => machine.registers.b,
        LoadByteSource::C => machine.registers.c,
        LoadByteSource::D => machine.registers.d,
        LoadByteSource::E => machine.registers.e,
        LoadByteSource::H => machine.registers.h,
        LoadByteSource::L => machine.registers.l,
        LoadByteSource::D8 => machine.next_byte(),
        LoadByteSource::HLI => machine.read(machine.registers.hl()),
    }
}

/// The state after a byte is stored in the target of a byte load: a
/// register, or the byte at HL.
pub open spec fn with_target(machine: Machine, target: LoadByteTarget, value: u8) -> Machine {
    let registers = machine.registers;
    match target {
        LoadByteTarget::A => machine.with_registers(Registers { a: value, ..registers }),
        LoadByteTarget::B => machine.with_registers(Registers { b: value, ..registers }),
        LoadByteTarget::C => machine.with_registers(Registers { c: value, ..registers }),
        LoadByteTarget::D => machine.with_registers(Registers { d: value, ..registers }),
        LoadByteTarget::E => machine.with_registers(Registers { e: value, ..registers }),
        LoadByteTarget::H => machine.with_registers(Registers { h: value, ..registers }),
        LoadByteTarget::L => machine.with_registers(Registers { l: value, ..registers }),
        LoadByteTarget::HLI => machine.write(registers.hl(), value),
    }
}

/// The width of a byte load: 2 with an immediate byte, else 1.
pub open spec fn byte_load_width(source: LoadByteSource) -> int {
    if source is D8 {
        2
    } else {
        1
    }
}

/// The cycles of a byte load: 4 between two registers, 8 where the byte at
/// HL or an immediate byte takes part.
pub open spec fn byte_load_cycles(target: LoadByteTarget, source: LoadByteSource) -> u8 {
    if source is D8 || source is HLI || target is HLI {
        8
    } else {
        4
    }
}

/// The state after a 16-bit value is stored in the target of a word load.
pub open spec fn with_word(machine: Machine, target: LoadWordTarget, value: u16) -> Machine {
    match target {
        LoadWordTarget::BC => machine.with_registers(machine.registers.with_bc(value)),
        LoadWordTarget::DE => machine.with_registers(machine.registers.with_de(value)),
        LoadWordTarget::HL => machine.with_registers(machine.registers.with_hl(value)),
        LoadWordTarget::SP => Machine { sp: value, ..machine },
    }
}

/// The address of an accumulator transfer: a register pair, the 16-bit
/// value after the opcode, or the high page at offset C.
pub open spec fn indirect_address(machine: Machine, indirect: Indirect) -> u16 {
    match indirect {
        Indirect::BCIndirect => machine.registers.bc(),
        Indirect::DEIndirect => machine.registers.de(),
        Indirect::HLIndirectMinus => machine.registers.hl(),
        Indirect::HLIndirectPlus => machine.registers.hl(),
        Indirect::WordIndirect => machine.next_word(),
        Indirect::LastByteIndirect => high_page(machine.registers.c),
    }
}

/// The registers after the address of an accumulator transfer was taken:
/// the two forms that step HL leave it one lower or one higher.
pub open spec fn after_indirect(registers: Registers, indirect: Indirect) -> Registers {
    match indirect {
        Indirect::HLIndirectMinus => registers.with_hl(offset(registers.hl(), -1)),
        Indirect::HLIndirectPlus => registers.with_hl(offset(registers.hl(), 1)),
        _ => registers,
    }
}

/// The width of an accumulator transfer: 3 with a 16-bit address after the
/// opcode, else 1.
pub open spec fn indirect_width(indirect: Indirect) -> int {
    if indirect is WordIndirect {
        3
    } else {
        1
    }
}

/// The cycles of an accumulator transfer: 16 with a 16-bit address after the
/// opcode, else 8.
pub open spec fn indirect_cycles(indirect: Indirect) -> u8 {
    if indirect is WordIndirect {
        16
    } else {
        8
    }
}

/// The flags after SP plus a displacement went into HL: zero and subtract
/// are cleared; half-carry and carry are those of the addition of the
/// displacement byte to the low byte of SP, out of bit 3 and out of bit 7.
pub open spec fn displacement_flags(sp: u16, displacement: u8) -> FlagsRegister {
    FlagsRegister {
        zero: false,
        subtract: false,
        half_carry: (sp & 0xF) + (displacement & 0xF) > 0xF,
        carry: (sp & 0xFF) + displacement > 0xFF,
    }
}

/// What a load does.
pub open spec fn load_outcome(machine: Machine, load_type: LoadType) -> Outcome {
    let registers = machine.registers;
    match load_type {
        LoadType::Byte(target, source) => with_target(
            machine,
            target,
            source_value(machine, source),
        ).proceed(byte_load_width(source), byte_load_cycles(target, source)),
        LoadType::Word(target) => with_word(machine, target, machine.next_word()).proceed(3, 12),
        LoadType::AFromIndirect(source) => machine.with_registers(
            Registers {
                a: machine.read(indirect_address(machine, source)),
                ..after_indirect(registers, source)
            },
        ).proceed(indirect_width(source), indirect_cycles(source)),
        LoadType::IndirectFromA(target) => machine.with_registers(
            after_indirect(registers, target),
        ).write(indirect_address(machine, target), registers.a).proceed(
            indirect_width(target),
            indirect_cycles(target),
        ),
        LoadType::AFromByteAddress => machine.with_registers(
            Registers { a: machine.read(high_page(machine.next_byte())), ..registers },
        ).proceed(2, 12),
        LoadType::ByteAddressFromA => machine.write(
            high_page(machine.next_byte()),
            registers.a,
        ).proceed(2, 12),
        LoadType::SPFromHL => (Machine { sp: registers.hl(), ..machine }).proceed(1, 8),
        LoadType::HLFromSPN => machine.with_registers(
            Registers {
                f: displacement_flags(machine.sp, machine.next_byte()),
                ..registers.with_hl(offset(machine.sp, signed_byte(machine.next_byte())))
            },
        ).proceed(2, 12),
        LoadType::IndirectFromSP => machine.write(
            machine.next_word(),
            low_byte(machine.sp),
        ).write(offset(machine.next_word(), 1), high_byte(machine.sp)).proceed(3, 20),
    }
}

/// What the unit does with an instruction: the outcome of a load, or `None`
/// for an instruction of another unit.
pub open spec fn load_unit_outcome(machine: Machine, instruction: Instruction) -> Option<
    Outcome,
> {
    match instruction {
        Instruction::LD(load_type) => Some(load_outcome(machine, load_type)),
        _ => None,
    }
}

/// Reads the source of a byte load.
fn read_source(cpu: &CPU, source: LoadByteSource) -> (value: u8)
    ensures
        value == source_value(cpu@, source),
{
    match source {
        LoadByteSource::A => cpu.registers.a,
        LoadByteSource::B => cpu.registers.b,
        LoadByteSource::C => cpu.registers.c,
        LoadByteSource::D => cpu.registers.d,
        LoadByteSource::E => cpu.registers.e,
        LoadByteSource::H => cpu.registers.h,
        LoadByteSource::L => cpu.registers.l,
        LoadByteSource::D8 => cpu.read_next_byte(),
        LoadByteSource::HLI => cpu.bus.read_byte(cpu.registers.get_hl()),
    }
}

/// Stores a byte in the target of a byte load.
fn write_target(cpu: &mut CPU, target: LoadByteTarget, value: u8)
    ensures
        final(cpu)@ == with_target(old(cpu)@, target, value),
{
    match target {
        LoadByteTarget::A => cpu.registers.a = value,
        LoadByteTarget::B => cpu.registers.b = value,
        LoadByteTarget::C => cpu.registers.c = value,
        LoadByteTarget::D => cpu.registers.d = value,
        LoadByteTarget::E => cpu.registers.e = value,
        LoadByteTarget::H => cpu.registers.h = value,
        LoadByteTarget::L => cpu.registers.l = value,
        LoadByteTarget::HLI => {
            let address = cpu.registers.get_hl();
            cpu.bus.write_byte(address, value);
        },
    }
}

/// Takes the address of an accumulator transfer, stepping HL where the
/// form asks for it.
fn take_address(cpu: &mut CPU, indirect: Indirect) -> (address: u16)
    ensures
        address == indirect_address(old(cpu)@, indirect),
        final(cpu)@ == old(cpu)@.with_registers(after_indirect(old(cpu).registers, indirect)),
{
    match indirect {
        Indirect::BCIndirect => cpu.registers.get_bc(),
        Indirect::DEIndirect => cpu.registers.get_de(),
        Indirect::HLIndirectMinus => {
            let hl = cpu.registers.get_hl();
            cpu.registers.set_hl(hl.wrapping_sub(1));
            hl
        },
        Indirect::HLIndirectPlus => {
            let hl = cpu.registers.get_hl();
            cpu.registers.set_hl(hl.wrapping_add(1));
            hl
        },
        Indirect::WordIndirect => cpu.read_next_word(),
        Indirect::LastByteIndirect => 0xFF00 + cpu.registers.c as u16,
    }
}

/// The width and the cycles of an accumulator transfer.
fn indirect_cost(cpu: &CPU, indirect: Indirect) -> (result: (u16, u8))
    ensures
        result.0 == offset(cpu.pc, indirect_width(indirect)),
        result.1 == indirect_cycles(indirect),
{
    match indirect {
        Indirect::WordIndirect => (cpu.pc.wrapping_add(3), 16),
        _ => (cpu.pc.wrapping_add(1), 8),
    }
}

/// The load of a byte from `source` into `target`.
fn load_byte(cpu: &mut CPU, target: LoadByteTarget, source: LoadByteSource) -> (result: (u16, u8))
    ensures
        final(cpu)@ == load_outcome(old(cpu)@, LoadType::Byte(target, source)).machine,
        result.0 == load_outcome(old(cpu)@, LoadType::Byte(target, source)).next_pc,
        result.1 == load_outcome(old(cpu)@, LoadType::Byte(target, source)).cycles,
{
    let source_value = read_source(cpu, source);
    write_target(cpu, target, source_value);
    let next_pc = match source {
        LoadByteSource::D8 => cpu.pc.wrapping_add(2),
        _ => cpu.pc.wrapping_add(1),
    };
    let cycles: u8 = match (target, source) {
        (_, LoadByteSource::D8) => 8,
        (_, LoadByteSource::HLI) => 8,
        (LoadByteTarget::HLI, _) => 8,
        _ => 4,
    };
    (next_pc, cycles)
}

/// The load of the 16-bit value after the opcode into `target`.
fn load_word(cpu: &mut CPU, target: LoadWordTarget) -> (result: (u16, u8))
    ensures
        final(cpu)@ == load_outcome(old(cpu)@, LoadType::Word(target)).machine,
        result.0 == load_outcome(old(cpu)@, LoadType::Word(target)).next_pc,
        result.1 == load_outcome(old(cpu)@, LoadType::Word(target)).cycles,
{
    let word = cpu.read_next_word();
    match target {
        LoadWordTarget::BC => cpu.registers.set_bc(word),
        LoadWordTarget::DE => cpu.registers.set_de(word),
        LoadWordTarget::HL => cpu.registers.set_hl(word),
        LoadWordTarget::SP => cpu.sp = word,
    };
    (cpu.pc.wrapping_add(3), 12)
}

/// The load of the accumulator from the address that `source` forms.
fn load_a_from_indirect(cpu: &mut CPU, source: Indirect) -> (result: (u16, u8))
    ensures
        final(cpu)@ == load_outcome(old(cpu)@, LoadType::AFromIndirect(source)).machine,
        result.0 == load_outcome(old(cpu)@, LoadType::AFromIndirect(source)).next_pc,
        result.1 == load_outcome(old(cpu)@, LoadType::AFromIndirect(source)).cycles,
{
    let address = take_address(cpu, source);
    cpu.registers.a = cpu.bus.read_byte(address);
    indirect_cost(cpu, source)
}

/// The store of the accumulator at the address that `target` forms.
fn load_indirect_from_a(cpu: &mut CPU, target: Indirect) -> (result: (u16, u8))
    ensures
        final(cpu)@ == load_outcome(old(cpu)@, LoadType::IndirectFromA(target)).machine,
        result.0 == load_outcome(old(cpu)@, LoadType::IndirectFromA(target)).next_pc,
        result.1 == load_outcome(old(cpu)@, LoadType::IndirectFromA(target)).cycles,
{
    let a = cpu.registers.a;
    let address = take_address(cpu, target);
    cpu.bus.write_byte(address, a);
    indirect_cost(cpu, target)
}

/// The load of SP plus the signed byte after the opcode into HL.
fn load_hl_from_sp_n(cpu: &mut CPU) -> (result: (u16, u8))
    ensures
        final(cpu)@ == load_outcome(old(cpu)@, LoadType::HLFromSPN).machine,
        result.0 == load_outcome(old(cpu)@, LoadType::HLFromSPN).next_pc,
        result.1 == load_outcome(old(cpu)@, LoadType::HLFromSPN).cycles,
{
    let displacement = cpu.read_next_byte();
    let sp = cpu.sp;
    // the displacement extended to 16 bits with its sign
    let value: u16 = if displacement < 0x80 {
        displacement as u16
    } else {
        0xFF00 + displacement as u16
    };
    let result = sp.wrapping_add(value);
    cpu.registers.set_hl(result);
    cpu.registers.f.zero = false;
    cpu.registers.f.subtract = false;
    assert(sp & 0xF <= 0xF && displacement & 0xF <= 0xF && sp & 0xFF <= 0xFF) by (bit_vector);
    // half and whole carry come out of the nibble and the byte, not out of
    // the byte and the word as one might expect of a 16-bit addition
    cpu.registers.f.half_carry = (sp & 0xF) + (displacement & 0xF) as u16 > 0xF;
    cpu.registers.f.carry = (sp & 0xFF) + displacement as u16 > 0xFF;
    (cpu.pc.wrapping_add(2), 12)
}

/// The store of SP at the address after the opcode, low byte first.
fn load_indirect_from_sp(cpu: &mut CPU) -> (result: (u16, u8))
    ensures
        final(cpu)@ == load_outcome(old(cpu)@, LoadType::IndirectFromSP).machine,
        result.0 == load_outcome(old(cpu)@, LoadType::IndirectFromSP).next_pc,
        result.1 == load_outcome(old(cpu)@, LoadType::IndirectFromSP).cycles,
{
    let address = cpu.read_next_word();
    let (high, low) = split_word(cpu.sp);
    cpu.bus.write_byte(address, low);
    cpu.bus.write_byte(address.wrapping_add(1), high);
    (cpu.pc.wrapping_add(3), 20)
}

/// Carries out one load.
pub fn load(cpu: &mut CPU, load_type: LoadType) -> (result: (u16, u8))
    ensures
        final(cpu)@ == load_outcome(old(cpu)@, load_type).machine,
        result.0 == load_outcome(old(cpu)@, load_type).next_pc,
        result.1 == load_outcome(old(cpu)@, load_type).cycles,
{
    match load_type {
        LoadType::Byte(target, source) => load_byte(cpu, target, source),
        LoadType::Word(target) => load_word(cpu, target),
        LoadType::AFromIndirect(source) => load_a_from_indirect(cpu, source),
        LoadType::IndirectFromA(target) => load_indirect_from_a(cpu, target),
        LoadType::ByteAddressFromA => {
            let low = cpu.read_next_byte();
            cpu.bus.write_byte(0xFF00 + low as u16, cpu.registers.a);
            (cpu.pc.wrapping_add(2), 12)
        },
        LoadType::AFromByteAddress => {
            let low = cpu.read_next_byte();
            cpu.registers.a = cpu.bus.read_byte(0xFF00 + low as u16);
            (cpu.pc.wrapping_add(2), 12)
        },
        LoadType::SPFromHL => {
            cpu.sp = cpu.registers.get_hl();
            (cpu.pc.wrapping_add(1), 8)
        },
        LoadType::IndirectFromSP => load_indirect_from_sp(cpu),
        LoadType::HLFromSPN => load_hl_from_sp_n(cpu),
    }
}

/// Carries out a load on the CPU: changes registers and memory as
/// `load_outcome` says and returns the program counter of the next
/// instruction and the cycles spent. The program counter itself is left for
/// the caller to commit. An instruction of another unit leaves the CPU
/// untouched and comes back in the error.
pub fn execute(cpu: &mut CPU, instruction: Instruction) -> (result: Result<
    (u16, u8),
    NotImplemented,
>)
    ensures
        performed(
            old(cpu)@,
            final(cpu)@,
            result,
            load_unit_outcome(old(cpu)@, instruction),
            instruction,
        ),
{
    match instruction {
        Instruction::LD(load_type) => Ok(load(cpu, load_type)),
        _ => Err(NotImplemented { instruction }),
    }
}

/// A load goes on one, two or three bytes after its opcode and costs 4, 8,
/// 12, 16 or 20 cycles. The load of SP plus displacement into HL apart, no
/// load changes a flag.
pub proof fn lemma_load_cost(machine: Machine, load_type: LoadType)
    ensures
        ({
            let outcome = load_outcome(machine, load_type);
            &&& outcome.next_pc == offset(machine.pc, 1) || outcome.next_pc == offset(
                machine.pc,
                2,
            ) || outcome.next_pc == offset(machine.pc, 3)
            &&& outcome.cycles == 4 || outcome.cycles == 8 || outcome.cycles == 12
                || outcome.cycles == 16 || outcome.cycles == 20
            &&& !(load_type is HLFromSPN) ==> outcome.machine.registers.f == machine.registers.f
            &&& outcome.machine.pc == machine.pc
        }),
{
}

/// SP plus a displacement in numbers: HL ends as the sum modulo 0x10000 of
/// SP and the displacement read as a signed byte; half-carry says that the
/// low nibbles of SP and of the displacement byte add up to more than 15,
/// carry that the low byte of SP and the displacement byte add up to more
/// than 255.
pub proof fn lemma_displacement_is_modular(sp: u16, displacement: u8)
    ensures
        offset(sp, signed_byte(displacement)) == (sp + signed_byte(displacement)) % 0x10000,
        displacement_flags(sp, displacement).half_carry == (sp % 16 + displacement % 16 > 15),
        displacement_flags(sp, displacement).carry == (sp % 256 + displacement > 255),
{
    assert(sp & 0xF == sp % 16 && sp & 0xFF == sp % 256 && displacement & 0xF == displacement
        % 16) by (bit_vector);
}

} // verus!
