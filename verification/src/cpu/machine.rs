//! The mathematical model of the CPU that the contracts are stated over:
//! the registers, the two 16-bit pointers and the memory as a sequence of
//! bytes.

use vstd::prelude::*;
use crate::cpu::instruction::JumpTest;
use crate::cpu::registers::{high_byte, lemma_word_bytes, low_byte, word_of, Registers};

verus! {

/// The address `delta` bytes after `address`, or before it where `delta` is
/// negative, in an address space that wraps round at 0x10000. It is meant
/// for a `delta` of at most 0x10000 either way.
pub open spec fn offset(address: u16, delta: int) -> u16
    recommends
        -0x10000 <= delta <= 0x10000,
{
    let sum = address + delta;
    if sum > 0xFFFF {
        (sum - 0x10000) as u16
    } else if sum < 0 {
        (sum + 0x10000) as u16
    } else {
        sum as u16
    }
}

/// An offset is the sum modulo 0x10000.
pub proof fn lemma_offset_is_modular(address: u16, delta: int)
    requires
        -0x10000 <= delta <= 0x10000,
    ensures
        offset(address, delta) == (address + delta) % 0x10000,
{
}

/// A byte read as a signed displacement, from -128 to 127.
pub open spec fn signed_byte(byte: u8) -> int {
    if byte < 128 {
        byte as int
    } else {
        byte - 256
    }
}

/// The state of the CPU and its memory as plain values.
pub struct Machine {
    pub registers: Registers,
    pub pc: u16,
    pub sp: u16,
    pub memory: Seq<u8>,
}

/// What one instruction does: the state it leaves, in which the program
/// counter is not yet moved, the value the program counter is to take, and
/// the clock cycles the instruction costs.
pub struct Outcome {
    pub machine: Machine,
    pub next_pc: u16,
    pub cycles: u8,
}

impl Machine {
    /// The memory holds one byte for each 16-bit address.
    pub open spec fn well_formed(self) -> bool {
        self.memory.len() == 0x10000
    }

    /// The byte at `address`.
    pub open spec fn read(self, address: u16) -> u8 {
        self.memory[address as int]
    }

    /// The state after `value` is stored at `address`.
    pub open spec fn write(self, address: u16, value: u8) -> Machine {
        Machine { memory: self.memory.update(address as int, value), ..self }
    }

    /// The state with other registers.
    pub open spec fn with_registers(self, registers: Registers) -> Machine {
        Machine { registers, ..self }
    }

    /// The byte that follows the opcode at the program counter.
    pub open spec fn next_byte(self) -> u8 {
        self.read(offset(self.pc, 1))
    }

    /// The 16-bit value that follows the opcode, low byte first.
    pub open spec fn next_word(self) -> u16 {
        word_of(self.read(offset(self.pc, 2)), self.read(offset(self.pc, 1)))
    }

    /// Whether a condition holds of the flags.
    pub open spec fn holds(self, test: JumpTest) -> bool {
        match test {
            JumpTest::NotZero => !self.registers.f.zero,
            JumpTest::Zero => self.registers.f.zero,
            JumpTest::NotCarry => !self.registers.f.carry,
            JumpTest::Carry => self.registers.f.carry,
            JumpTest::Always => true,
        }
    }

    /// The state after `value` is pushed: the high byte goes to the address
    /// below the stack pointer, the low byte to the one below that, and the
    /// stack pointer ends two lower.
    pub open spec fn push(self, value: u16) -> Machine {
        let stored = self.write(offset(self.sp, -1), high_byte(value)).write(
            offset(self.sp, -2),
            low_byte(value),
        );
        Machine { sp: offset(self.sp, -2), ..stored }
    }

    /// The 16-bit value on top of the stack: its low byte at the stack
    /// pointer, its high byte one above.
    pub open spec fn top(self) -> u16 {
        word_of(self.read(offset(self.sp, 1)), self.read(self.sp))
    }

    /// The state after the top of the stack is taken off: the stack pointer
    /// ends two higher and memory is as it was.
    pub open spec fn pop(self) -> Machine {
        Machine { sp: offset(self.sp, 2), ..self }
    }

    /// The outcome of an instruction of `width` bytes that leaves this state
    /// and goes on with the instruction after it.
    pub open spec fn proceed(self, width: int, cycles: u8) -> Outcome {
        Outcome { machine: self, next_pc: offset(self.pc, width), cycles }
    }
}

/// A pushed value is on top of the stack, and taking it off again leaves the
/// stack pointer where it was before the push.
pub proof fn lemma_push_then_pop(machine: Machine, value: u16)
    requires
        machine.well_formed(),
    ensures
        machine.push(value).top() == value,
        machine.push(value).pop().sp == machine.sp,
        machine.push(value).pop().registers == machine.registers,
        machine.push(value).pop().pc == machine.pc,
{
    lemma_word_bytes(value, 0, 0);
}

/// A push moves the stack pointer down by exactly two and stores the high
/// byte one below the old stack pointer and the low byte two below; every
/// other byte of memory stays. A pop moves the stack pointer up by exactly
/// two.
pub proof fn lemma_stack_layout(machine: Machine, value: u16)
    requires
        machine.well_formed(),
    ensures
        machine.push(value).sp == offset(machine.sp, -2),
        machine.push(value).read(offset(machine.sp, -1)) == high_byte(value),
        machine.push(value).read(offset(machine.sp, -2)) == low_byte(value),
        forall|address: u16|
            address != offset(machine.sp, -1) && address != offset(machine.sp, -2)
                ==> machine.push(value).read(address) == machine.read(address),
        machine.push(value).well_formed(),
        machine.pop().sp == offset(machine.sp, 2),
        machine.pop().memory == machine.memory,
{
}

} // verus!
