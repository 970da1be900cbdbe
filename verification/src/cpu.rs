//! The CPU: its state, the errors it reports, and the fetch-decode-execute
//! step that ties the execution units together.

pub mod alu;
pub mod flags_register;
pub mod instruction;
pub mod load;
pub mod machine;
pub mod register_manipulation;
pub mod registers;

use vstd::prelude::*;
use crate::memory_bus::{zeroed_memory, MemoryBus};
use alu::alu_outcome;
use instruction::{decode, Instruction, JumpTest, RSTLocation, StackTarget};
use load::load_unit_outcome;
use machine::{lemma_push_then_pop, offset, signed_byte, Machine, Outcome};
use register_manipulation::manipulation_outcome;
use registers::{join_bytes, lemma_pair_write_after_read, split_word, Registers};

verus! {

/// The CPU with the memory it owns.
pub struct CPU {
    pub registers: Registers,
    /// The program counter: the address of the next opcode.
    pub pc: u16,
    /// The stack pointer. The stack lies in memory and grows down from it.
    pub sp: u16,
    pub bus: MemoryBus,
}

/// An instruction that decoded but names an operand or an operation that no
/// execution unit carries out.
#[derive(Copy, Clone, Debug, PartialEq, Eq, Structural)]
pub struct NotImplemented {
    pub instruction: Instruction,
}

/// Why a step could not be made. Both kinds are final: the state is left as
/// it was before the step, and the fault names the opcode, whether it was
/// read in the prefixed set, and the program counter it was fetched at (for
/// a prefixed opcode, the address of the prefix).
#[derive(Copy, Clone, Debug, PartialEq, Eq, Structural)]
pub enum Fault {
    /// The opcode names no instruction.
    UnknownOpcode { opcode: u8, prefixed: bool, pc: u16 },
    /// The opcode names an instruction that is not carried out.
    Unimplemented { opcode: u8, prefixed: bool, pc: u16 },
}

impl View for CPU {
    type V = Machine;

    open spec fn view(&self) -> Machine {
        Machine { registers: self.registers, pc: self.pc, sp: self.sp, memory: self.bus@ }
    }
}

/// What a call that carries out `instruction` owes: where the model gives an
/// outcome, the CPU is in the outcome's state and the call returns its next
/// program counter and its cycles; where it gives none, the CPU is as it was
/// and the call returns the error.
pub open spec fn performed(
    before: Machine,
    after: Machine,
    result: Result<(u16, u8), NotImplemented>,
    expected: Option<Outcome>,
    instruction: Instruction,
) -> bool {
    match expected {
        Some(outcome) => after == outcome.machine && result == Ok::<(u16, u8), NotImplemented>(
            (outcome.next_pc, outcome.cycles),
        ),
        None => after == before && result == Err::<(u16, u8), NotImplemented>(
            NotImplemented { instruction },
        ),
    }
}

/// What an absolute jump does: taken, it goes on at the 16-bit address after
/// the opcode and costs 16 cycles; not taken, it goes on after its three
/// bytes and costs 12.
pub open spec fn jump_outcome(machine: Machine, taken: bool) -> Outcome {
    if taken {
        Outcome { machine, next_pc: machine.next_word(), cycles: 16 }
    } else {
        machine.proceed(3, 12)
    }
}

/// What a relative jump does: taken, it goes on at the address after its two
/// bytes plus the signed byte after the opcode and costs 16 cycles; not
/// taken, it goes on after its two bytes and costs 12.
pub open spec fn jump_relative_outcome(machine: Machine, taken: bool) -> Outcome {
    if taken {
        machine.proceed(2 + signed_byte(machine.next_byte()), 16)
    } else {
        machine.proceed(2, 12)
    }
}

/// What a call does: taken, it pushes the address after its three bytes,
/// goes on at the 16-bit address after the opcode and costs 24 cycles; not
/// taken, it goes on after its three bytes and costs 12. The address is
/// read once the return address is stored.
pub open spec fn call_outcome(machine: Machine, taken: bool) -> Outcome {
    if taken {
        let pushed = machine.push(offset(machine.pc, 3));
        Outcome { machine: pushed, next_pc: pushed.next_word(), cycles: 24 }
    } else {
        machine.proceed(3, 12)
    }
}

/// What a return does: taken, it takes the address to go on at off the
/// stack and costs 16 cycles without a condition and 20 with one; not
/// taken, it goes on after its one byte and costs 8.
pub open spec fn return_outcome(machine: Machine, test: JumpTest) -> Outcome {
    if machine.holds(test) {
        Outcome {
            machine: machine.pop(),
            next_pc: machine.top(),
            cycles: if test is Always {
                16
            } else {
                20
            },
        }
    } else {
        machine.proceed(1, 8)
    }
}

/// What a reset does: it pushes the address after its one byte, goes on at
/// the fixed entry point and costs 16 cycles.
pub open spec fn reset_outcome(machine: Machine, location: RSTLocation) -> Outcome {
    Outcome {
        machine: machine.push(offset(machine.pc, 1)),
        next_pc: location.address(),
        cycles: 16,
    }
}

/// The value of the register pair that a push or pop names.
pub open spec fn stack_pair_value(registers: Registers, target: StackTarget) -> u16 {
    match target {
        StackTarget::AF => registers.af(),
        StackTarget::BC => registers.bc(),
        StackTarget::DE => registers.de(),
        StackTarget::HL => registers.hl(),
    }
}

/// The registers after the pair that a push or pop names is written.
pub open spec fn with_stack_pair(registers: Registers, target: StackTarget, value: u16)
    -> Registers {
    match target {
        StackTarget::AF => registers.with_af(value),
        StackTarget::BC => registers.with_bc(value),
        StackTarget::DE => registers.with_de(value),
        StackTarget::HL => registers.with_hl(value),
    }
}

/// What the push of a register pair does: one byte wide, 16 cycles.
pub open spec fn push_outcome(machine: Machine, target: StackTarget) -> Outcome {
    machine.push(stack_pair_value(machine.registers, target)).proceed(1, 16)
}

/// What the pop of a register pair does: one byte wide, 12 cycles.
pub open spec fn pop_outcome(machine: Machine, target: StackTarget) -> Outcome {
    machine.pop().with_registers(
        with_stack_pair(machine.registers, target, machine.top()),
    ).proceed(1, 12)
}

/// What an instruction does to a machine: the outcome, or `None` where the
/// instruction is not carried out.
///
/// NOP, HALT, DI and EI change nothing, are one byte wide and cost 4
/// cycles; RETI changes nothing either, is one byte wide and costs 16:
/// halting and the interrupts are the host's to act on. CCF and SCF are
/// not carried out, nor is what the units themselves leave out.
pub open spec fn execute_outcome(machine: Machine, instruction: Instruction) -> Option<Outcome> {
    match instruction {
        Instruction::LD(_) => load_unit_outcome(machine, instruction),
        Instruction::JP(test) => Some(jump_outcome(machine, machine.holds(test))),
        Instruction::JR(test) => Some(jump_relative_outcome(machine, machine.holds(test))),
        Instruction::JPI => Some(
            Outcome { machine, next_pc: machine.registers.hl(), cycles: 4 },
        ),
        Instruction::PUSH(target) => Some(push_outcome(machine, target)),
        Instruction::POP(target) => Some(pop_outcome(machine, target)),
        Instruction::CALL(test) => Some(call_outcome(machine, machine.holds(test))),
        Instruction::RET(test) => Some(return_outcome(machine, test)),
        Instruction::RST(location) => Some(reset_outcome(machine, location)),
        Instruction::RETI => Some(machine.proceed(1, 16)),
        Instruction::NOP | Instruction::HALT | Instruction::DI | Instruction::EI => Some(
            machine.proceed(1, 4),
        ),
        Instruction::RRA
        | Instruction::RLA
        | Instruction::RRCA
        | Instruction::RLCA
        | Instruction::BIT(_, _)
        | Instruction::RES(_, _)
        | Instruction::SET(_, _)
        | Instruction::SRL(_)
        | Instruction::RR(_)
        | Instruction::RL(_)
        | Instruction::RRC(_)
        | Instruction::RLC(_)
        | Instruction::SRA(_)
        | Instruction::SLA(_)
        | Instruction::SWAP(_) => manipulation_outcome(machine, instruction),
        _ => alu_outcome(machine, instruction),
    }
}

/// The opcode that a step fetches: the byte at the program counter, or,
/// where that byte is the prefix 0xCB, the byte after it.
pub open spec fn fetched_opcode(machine: Machine) -> u8 {
    if machine.read(machine.pc) == 0xCB {
        machine.next_byte()
    } else {
        machine.read(machine.pc)
    }
}

/// Whether a step reads its opcode in the prefixed set.
pub open spec fn fetched_prefixed(machine: Machine) -> bool {
    machine.read(machine.pc) == 0xCB
}

/// What one step does to a machine: the state with the program counter
/// committed and the cycles spent, or the fault that stopped it.
pub open spec fn step_outcome(machine: Machine) -> Result<(Machine, u8), Fault> {
    let opcode = fetched_opcode(machine);
    let prefixed = fetched_prefixed(machine);
    match decode(opcode, prefixed) {
        None => Err(Fault::UnknownOpcode { opcode, prefixed, pc: machine.pc }),
        Some(instruction) => match execute_outcome(machine, instruction) {
            None => Err(Fault::Unimplemented { opcode, prefixed, pc: machine.pc }),
            Some(outcome) => Ok(
                (Machine { pc: outcome.next_pc, ..outcome.machine }, outcome.cycles),
            ),
        },
    }
}

impl CPU {
    /// The state at power-on: registers, flags, program counter and stack
    /// pointer zero, memory zeroed.
    pub open spec fn initial() -> Machine {
        Machine { registers: Registers::initial(), pc: 0, sp: 0, memory: zeroed_memory() }
    }

    /// A CPU at power-on.
    pub fn new() -> (cpu: Self)
        ensures
            cpu@ == CPU::initial(),
    {
        Self { registers: Registers::new(), pc: 0x0, sp: 0x0, bus: MemoryBus::new() }
    }

    /// Whether a condition holds of the flags.
    pub fn test(&self, test: JumpTest) -> (taken: bool)
        ensures
            taken == self@.holds(test),
    {
        match test {
            JumpTest::NotZero => !self.registers.f.zero,
            JumpTest::NotCarry => !self.registers.f.carry,
            JumpTest::Zero => self.registers.f.zero,
            JumpTest::Carry => self.registers.f.carry,
            JumpTest::Always => true,
        }
    }

    /// Makes one step: fetches the opcode at the program counter, and the
    /// one after it where the first is the prefix 0xCB, decodes it, carries
    /// the instruction out and commits the program counter. Returns the
    /// cycles that the instruction cost. Where the opcode names nothing, or
    /// names what is not carried out, the CPU is left as it was and the
    /// fault says which opcode it was and where.
    pub fn step(&mut self) -> (result: Result<u8, Fault>)
        ensures
            match step_outcome(old(self)@) {
                Ok((machine, cycles)) => final(self)@ == machine && result == Ok::<u8, Fault>(
                    cycles,
                ),
                Err(fault) => final(self)@ == old(self)@ && result == Err::<u8, Fault>(fault),
            },
    {
        let pc = self.pc;
        let mut instruction_byte = self.bus.read_byte(pc);
        let prefixed = instruction_byte == 0xCB;
        if prefixed {
            instruction_byte = self.bus.read_byte(pc.wrapping_add(1));
        }
        match Instruction::from_byte(instruction_byte, prefixed) {
            Some(instruction) => match self.execute(instruction) {
                Ok((next_pc, cycles)) => {
                    self.pc = next_pc;
                    Ok(cycles)
                },
                Err(_) => Err(Fault::Unimplemented { opcode: instruction_byte, prefixed, pc }),
            },
            None => Err(Fault::UnknownOpcode { opcode: instruction_byte, prefixed, pc }),
        }
    }

    /// Carries out one instruction: changes registers, flags, stack pointer
    /// and memory as `execute_outcome` says and returns the program counter
    /// of the next instruction and the cycles spent. The program counter
    /// itself is left for the caller to commit. Where the instruction is not
    /// carried out, the CPU is left untouched and the instruction comes back
    /// in the error.
    pub fn execute(&mut self, instruction: Instruction) -> (result: Result<
        (u16, u8),
        NotImplemented,
    >)
        ensures
            performed(
                old(self)@,
                final(self)@,
                result,
                execute_outcome(old(self)@, instruction),
                instruction,
            ),
    {
        match instruction {
            Instruction::ADD(_) => alu::execute(self, instruction),
            Instruction::ADC(_) => alu::execute(self, instruction),
            Instruction::SUB(_) => alu::execute(self, instruction),
            Instruction::SBC(_) => alu::execute(self, instruction),
            Instruction::AND(_) => alu::execute(self, instruction),
            Instruction::XOR(_) => alu::execute(self, instruction),
            Instruction::OR(_) => alu::execute(self, instruction),
            Instruction::CP(_) => alu::execute(self, instruction),
            Instruction::INC(_) => alu::execute(self, instruction),
            Instruction::DEC(_) => alu::execute(self, instruction),
            Instruction::DAA => alu::execute(self, instruction),
            Instruction::CPL => alu::execute(self, instruction),
            Instruction::ADDHL(_) => alu::execute(self, instruction),
            Instruction::ADDSP => alu::execute(self, instruction),
            Instruction::CCF => alu::execute(self, instruction),
            Instruction::SCF => alu::execute(self, instruction),
            Instruction::LD(_) => load::execute(self, instruction),
            Instruction::JP(test) => {
                let jump_condition = self.test(test);
                Ok(self.jump(jump_condition))
            },
            Instruction::JR(test) => {
                let jump_condition = self.test(test);
                Ok(self.jump_relative(jump_condition))
            },
            Instruction::JPI => Ok((self.registers.get_hl(), 4)),
            Instruction::PUSH(target) => {
                let value = match target {
                    StackTarget::AF => self.registers.get_af(),
                    StackTarget::BC => self.registers.get_bc(),
                    StackTarget::DE => self.registers.get_de(),
                    StackTarget::HL => self.registers.get_hl(),
                };
                self.push(value);
                Ok((self.pc.wrapping_add(1), 16))
            },
            Instruction::POP(target) => {
                let result = self.pop();
                match target {
                    StackTarget::AF => self.registers.set_af(result),
                    StackTarget::BC => self.registers.set_bc(result),
                    StackTarget::DE => self.registers.set_de(result),
                    StackTarget::HL => self.registers.set_hl(result),
                };
                Ok((self.pc.wrapping_add(1), 12))
            },
            Instruction::CALL(test) => {
                let jump_condition = self.test(test);
                Ok(self.call(jump_condition))
            },
            Instruction::RET(test) => {
                let jump_condition = self.test(test);
                let next_pc = self.ret(jump_condition);
                let cycles: u8 = if jump_condition && test == JumpTest::Always {
                    16
                } else if jump_condition {
                    20
                } else {
                    8
                };
                Ok((next_pc, cycles))
            },
            Instruction::RST(location) => Ok(self.rst(location)),
            Instruction::RETI => Ok((self.pc.wrapping_add(1), 16)),
            Instruction::NOP => Ok((self.pc.wrapping_add(1), 4)),
            Instruction::HALT => Ok((self.pc.wrapping_add(1), 4)),
            Instruction::DI => Ok((self.pc.wrapping_add(1), 4)),
            Instruction::EI => Ok((self.pc.wrapping_add(1), 4)),
            Instruction::RRA => register_manipulation::execute(self, instruction),
            Instruction::RLA => register_manipulation::execute(self, instruction),
            Instruction::RRCA => register_manipulation::execute(self, instruction),
            Instruction::RLCA => register_manipulation::execute(self, instruction),
            Instruction::BIT(_, _) => register_manipulation::execute(self, instruction),
            Instruction::RES(_, _) => register_manipulation::execute(self, instruction),
            Instruction::SET(_, _) => register_manipulation::execute(self, instruction),
            Instruction::SRL(_) => register_manipulation::execute(self, instruction),
            Instruction::RR(_) => register_manipulation::execute(self, instruction),
            Instruction::RL(_) => register_manipulation::execute(self, instruction),
            Instruction::RRC(_) => register_manipulation::execute(self, instruction),
            Instruction::RLC(_) => register_manipulation::execute(self, instruction),
            Instruction::SRA(_) => register_manipulation::execute(self, instruction),
            Instruction::SLA(_) => register_manipulation::execute(self, instruction),
            Instruction::SWAP(_) => register_manipulation::execute(self, instruction),
        }
    }

    /// An absolute jump, taken where `jump_condition` holds.
    pub fn jump(&self, jump_condition: bool) -> (result: (u16, u8))
        ensures
            result.0 == jump_outcome(self@, jump_condition).next_pc,
            result.1 == jump_outcome(self@, jump_condition).cycles,
    {
        if jump_condition {
            (self.read_next_word(), 16)
        } else {
            // a jump that is not taken still moves past its three bytes:
            // the opcode and the two bytes of the address
            (self.pc.wrapping_add(3), 12)
        }
    }

    /// A relative jump, taken where `should_jump` holds.
    pub fn jump_relative(&self, should_jump: bool) -> (result: (u16, u8))
        ensures
            result.0 == jump_relative_outcome(self@, should_jump).next_pc,
            result.1 == jump_relative_outcome(self@, should_jump).cycles,
    {
        let next_step = self.pc.wrapping_add(2);
        if should_jump {
            let displacement = self.read_next_byte();
            let pc = if displacement < 0x80 {
                next_step.wrapping_add(displacement as u16)
            } else {
                next_step.wrapping_sub(0x100 - displacement as u16)
            };
            (pc, 16)
        } else {
            (next_step, 12)
        }
    }

    /// Pushes a 16-bit value on the stack.
    pub fn push(&mut self, value: u16)
        ensures
            final(self)@ == old(self)@.push(value),
    {
        let (high, low) = split_word(value);
        self.sp = self.sp.wrapping_sub(1);
        self.bus.write_byte(self.sp, high);
        self.sp = self.sp.wrapping_sub(1);
        self.bus.write_byte(self.sp, low);
    }

    /// Takes a 16-bit value off the stack.
    pub fn pop(&mut self) -> (value: u16)
        ensures
            value == old(self)@.top(),
            final(self)@ == old(self)@.pop(),
    {
        let lsb = self.bus.read_byte(self.sp);
        self.sp = self.sp.wrapping_add(1);
        let msb = self.bus.read_byte(self.sp);
        self.sp = self.sp.wrapping_add(1);
        join_bytes(msb, lsb)
    }

    /// A call, taken where `condition` holds.
    pub fn call(&mut self, condition: bool) -> (result: (u16, u8))
        ensures
            final(self)@ == call_outcome(old(self)@, condition).machine,
            result.0 == call_outcome(old(self)@, condition).next_pc,
            result.1 == call_outcome(old(self)@, condition).cycles,
    {
        let next_pc = self.pc.wrapping_add(3);
        if condition {
            self.push(next_pc);
            (self.read_next_word(), 24)
        } else {
            (next_pc, 12)
        }
    }

    /// A return, taken where `condition` holds: the program counter to go on
    /// at is the top of the stack where it is taken, else the address after
    /// the opcode.
    pub fn ret(&mut self, condition: bool) -> (next_pc: u16)
        ensures
            condition ==> next_pc == old(self)@.top() && final(self)@ == old(self)@.pop(),
            !condition ==> next_pc == offset(old(self).pc, 1) && final(self)@ == old(self)@,
    {
        if condition {
            self.pop()
        } else {
            self.pc.wrapping_add(1)
        }
    }

    /// A reset to the entry point `location`.
    pub fn rst(&mut self, location: RSTLocation) -> (result: (u16, u8))
        ensures
            final(self)@ == reset_outcome(old(self)@, location).machine,
            result.0 == reset_outcome(old(self)@, location).next_pc,
            result.1 == reset_outcome(old(self)@, location).cycles,
    {
        self.push(self.pc.wrapping_add(1));
        (location.to_hex(), 16)
    }

    /// The byte after the opcode at the program counter.
    pub fn read_next_byte(&self) -> (value: u8)
        ensures
            value == self@.next_byte(),
    {
        self.bus.read_byte(self.pc.wrapping_add(1))
    }

    /// The 16-bit value after the opcode at the program counter. It is
    /// stored low byte first.
    pub fn read_next_word(&self) -> (value: u16)
        ensures
            value == self@.next_word(),
    {
        let least_significant_byte = self.bus.read_byte(self.pc.wrapping_add(1));
        let most_significant_byte = self.bus.read_byte(self.pc.wrapping_add(2));
        join_bytes(most_significant_byte, least_significant_byte)
    }

    /// The model of a CPU is well formed.
    pub proof fn lemma_view_well_formed(&self)
        ensures
            self@.well_formed(),
    {
    }
}

/// A relative jump that is taken with displacement -2 goes on at its own
/// address, and one with displacement 0 at the address after its two bytes.
pub proof fn lemma_relative_jump(machine: Machine)
    ensures
        signed_byte(0xFE) == -2,
        machine.next_byte() == 0xFE ==> jump_relative_outcome(machine, true).next_pc
            == machine.pc,
        machine.next_byte() == 0 ==> jump_relative_outcome(machine, true).next_pc == offset(
            machine.pc,
            2,
        ),
{
}

/// The push of a register pair and the pop of the same pair after it leave
/// the registers and the stack pointer as they were before the push, and
/// between the two the pair's value is on top of the stack.
pub proof fn lemma_push_pop_round_trip(machine: Machine, target: StackTarget)
    requires
        machine.well_formed(),
    ensures
        ({
            let pushed = push_outcome(machine, target).machine;
            let popped = pop_outcome(pushed, target).machine;
            &&& pushed.top() == stack_pair_value(machine.registers, target)
            &&& popped.registers == machine.registers
            &&& popped.sp == machine.sp
            &&& popped.pc == machine.pc
            &&& popped.memory == pushed.memory
        }),
{
    let value = stack_pair_value(machine.registers, target);
    lemma_push_then_pop(machine, value);
    lemma_pair_write_after_read(machine.registers);
}

/// A return without a condition goes on at the value on top of the stack,
/// moves the stack pointer up by two, and costs 16 cycles.
pub proof fn lemma_unconditional_return(machine: Machine)
    ensures
        return_outcome(machine, JumpTest::Always).next_pc == machine.top(),
        return_outcome(machine, JumpTest::Always).machine.sp == offset(machine.sp, 2),
        return_outcome(machine, JumpTest::Always).cycles == 16,
{
}

/// No instruction moves the program counter itself: where to go on is
/// told beside the state, for the step to commit. No instruction changes the
/// size of the memory.
pub proof fn lemma_execute_leaves_pc(machine: Machine, instruction: Instruction)
    requires
        machine.well_formed(),
    ensures
        match execute_outcome(machine, instruction) {
            Some(outcome) => outcome.machine.pc == machine.pc && outcome.machine.well_formed(),
            None => true,
        },
{
}

/// A step leaves the memory at its size, so a well-formed machine stays
/// well formed. A step that fails names the opcode that was fetched, the
/// set it was read in and the address it was fetched at; no opcode of the
/// prefixed set is unknown.
pub proof fn lemma_step_keeps_well_formed(machine: Machine)
    requires
        machine.well_formed(),
    ensures
        match step_outcome(machine) {
            Ok((after, cycles)) => after.well_formed(),
            Err(Fault::UnknownOpcode { opcode, prefixed, pc }) => {
                &&& opcode == fetched_opcode(machine)
                &&& prefixed == fetched_prefixed(machine)
                &&& pc == machine.pc
                &&& !prefixed
            },
            Err(Fault::Unimplemented { opcode, prefixed, pc }) => {
                &&& opcode == fetched_opcode(machine)
                &&& prefixed == fetched_prefixed(machine)
                &&& pc == machine.pc
            },
        },
{
}

} // verus!
