use dmg_01::cpu::flags_register::FlagsRegister;
use dmg_01::cpu::instruction::{
    ArithmeticTarget, Instruction, JumpTest, RSTLocation, StackTarget,
};
use dmg_01::cpu::{Fault, NotImplemented, CPU};

fn flags(zero: bool, subtract: bool, half_carry: bool, carry: bool) -> FlagsRegister {
    FlagsRegister { zero, subtract, half_carry, carry }
}

#[test]
fn a_new_cpu_is_all_zero() {
    let cpu = CPU::new();
    assert_eq!(cpu.pc, 0);
    assert_eq!(cpu.sp, 0);
    assert_eq!(cpu.registers.get_af(), 0);
    assert_eq!(cpu.registers.get_bc(), 0);
    assert_eq!(cpu.registers.get_de(), 0);
    assert_eq!(cpu.registers.get_hl(), 0);
    assert!(cpu.bus.memory.iter().all(|byte| *byte == 0));
}

#[test]
fn push_stores_high_byte_then_low_byte_below_the_stack_pointer() {
    let mut cpu = CPU::new();
    cpu.sp = 0xD000;
    cpu.push(0x1234);
    assert_eq!(cpu.sp, 0xCFFE);
    assert_eq!(cpu.bus.read_byte(0xCFFF), 0x12);
    assert_eq!(cpu.bus.read_byte(0xCFFE), 0x34);
    assert_eq!(cpu.bus.read_byte(0xD000), 0x00);
    assert_eq!(cpu.bus.read_byte(0xCFFD), 0x00);
}

#[test]
fn pop_reads_low_byte_then_high_byte_and_moves_the_stack_pointer_up() {
    let mut cpu = CPU::new();
    cpu.sp = 0xCFFE;
    cpu.bus.write_byte(0xCFFE, 0x34);
    cpu.bus.write_byte(0xCFFF, 0x12);
    assert_eq!(cpu.pop(), 0x1234);
    assert_eq!(cpu.sp, 0xD000);
    assert_eq!(cpu.bus.read_byte(0xCFFE), 0x34);
    assert_eq!(cpu.bus.read_byte(0xCFFF), 0x12);
}

#[test]
fn push_and_pop_move_the_stack_pointer_by_two_from_anywhere() {
    let mut cpu = CPU::new();
    for sp in [0x0000u16, 0x0001, 0x0002, 0x00FF, 0x0100, 0x8000, 0xFFFE, 0xFFFF] {
        cpu.sp = sp;
        cpu.push(0xA55A);
        assert_eq!(cpu.sp, sp.wrapping_sub(2));
        assert_eq!(cpu.bus.read_byte(sp.wrapping_sub(1)), 0xA5);
        assert_eq!(cpu.bus.read_byte(sp.wrapping_sub(2)), 0x5A);
        assert_eq!(cpu.pop(), 0xA55A);
        assert_eq!(cpu.sp, sp);
        cpu.sp = sp;
        let _ = cpu.pop();
        assert_eq!(cpu.sp, sp.wrapping_add(2));
    }
}

#[test]
fn push_then_pop_of_a_pair_gives_the_pair_back() {
    for target in [StackTarget::AF, StackTarget::BC, StackTarget::DE, StackTarget::HL] {
        let mut cpu = CPU::new();
        cpu.pc = 0x0100;
        cpu.sp = 0xFFFE;
        cpu.registers.a = 0x01;
        cpu.registers.f = flags(true, false, true, false);
        cpu.registers.set_bc(0x2345);
        cpu.registers.set_de(0x6789);
        cpu.registers.set_hl(0xABCD);
        let before = cpu.registers;
        assert_eq!(cpu.execute(Instruction::PUSH(target)), Ok((0x0101, 16)));
        assert_eq!(cpu.sp, 0xFFFC);
        cpu.registers.a = 0;
        cpu.registers.f = flags(false, true, false, true);
        cpu.registers.set_bc(0);
        cpu.registers.set_de(0);
        cpu.registers.set_hl(0);
        assert_eq!(cpu.execute(Instruction::POP(target)), Ok((0x0101, 12)));
        assert_eq!(cpu.sp, 0xFFFE);
        let after = cpu.registers;
        match target {
            StackTarget::AF => {
                assert_eq!((after.a, after.f), (before.a, before.f));
                assert_eq!(after.get_bc(), 0);
            }
            StackTarget::BC => {
                assert_eq!(after.get_bc(), 0x2345);
                assert_eq!(after.get_de(), 0);
            }
            StackTarget::DE => {
                assert_eq!(after.get_de(), 0x6789);
                assert_eq!(after.get_hl(), 0);
            }
            StackTarget::HL => {
                assert_eq!(after.get_hl(), 0xABCD);
                assert_eq!(after.get_bc(), 0);
            }
        }
    }
}

#[test]
fn push_of_af_stores_the_packed_flags() {
    let mut cpu = CPU::new();
    cpu.sp = 0x1000;
    cpu.registers.a = 0xAB;
    cpu.registers.f = flags(true, true, false, true);
    assert_eq!(cpu.execute(Instruction::PUSH(StackTarget::AF)), Ok((1, 16)));
    assert_eq!(cpu.bus.read_byte(0x0FFF), 0xAB);
    assert_eq!(cpu.bus.read_byte(0x0FFE), 0xD0);
}

#[test]
fn pop_into_af_keeps_only_the_flag_bits() {
    let mut cpu = CPU::new();
    cpu.sp = 0x1000;
    cpu.bus.write_byte(0x1000, 0x3F);
    cpu.bus.write_byte(0x1001, 0x77);
    assert_eq!(cpu.execute(Instruction::POP(StackTarget::AF)), Ok((1, 12)));
    assert_eq!(cpu.registers.a, 0x77);
    assert_eq!(cpu.registers.f, flags(false, false, true, true));
    assert_eq!(cpu.registers.get_af(), 0x7730);
    assert_eq!(cpu.sp, 0x1002);
}

#[test]
fn unconditional_ret_goes_to_the_top_of_the_stack() {
    let mut cpu = CPU::new();
    cpu.pc = 0x0200;
    cpu.sp = 0xCFFE;
    cpu.bus.write_byte(0xCFFE, 0x34);
    cpu.bus.write_byte(0xCFFF, 0x12);
    assert_eq!(cpu.execute(Instruction::RET(JumpTest::Always)), Ok((0x1234, 16)));
    assert_eq!(cpu.sp, 0xD000);
    assert_eq!(cpu.pc, 0x0200);

    cpu.bus.write_byte(0x0300, 0xC9);
    cpu.pc = 0x0300;
    cpu.sp = 0xCFFE;
    assert_eq!(cpu.step(), Ok(16));
    assert_eq!(cpu.pc, 0x1234);
    assert_eq!(cpu.sp, 0xD000);
}

#[test]
fn conditional_ret_costs_twenty_taken_and_eight_not_taken() {
    let cases = [
        (JumpTest::Zero, flags(true, false, false, false), true),
        (JumpTest::Zero, flags(false, false, false, true), false),
        (JumpTest::NotZero, flags(false, false, false, false), true),
        (JumpTest::NotZero, flags(true, false, false, false), false),
        (JumpTest::Carry, flags(false, false, false, true), true),
        (JumpTest::Carry, flags(true, false, false, false), false),
        (JumpTest::NotCarry, flags(true, false, false, false), true),
        (JumpTest::NotCarry, flags(false, false, false, true), false),
    ];
    for (test, before, taken) in cases {
        let mut cpu = CPU::new();
        cpu.pc = 0x0200;
        cpu.sp = 0xCFFE;
        cpu.bus.write_byte(0xCFFE, 0x34);
        cpu.bus.write_byte(0xCFFF, 0x12);
        cpu.registers.f = before;
        if taken {
            assert_eq!(cpu.execute(Instruction::RET(test)), Ok((0x1234, 20)));
            assert_eq!(cpu.sp, 0xD000);
        } else {
            assert_eq!(cpu.execute(Instruction::RET(test)), Ok((0x0201, 8)));
            assert_eq!(cpu.sp, 0xCFFE);
        }
        assert_eq!(cpu.registers.f, before);
    }
}

#[test]
fn ret_tells_where_to_go_on() {
    let mut cpu = CPU::new();
    cpu.pc = 0x0200;
    cpu.sp = 0x8000;
    cpu.bus.write_byte(0x8000, 0xCD);
    cpu.bus.write_byte(0x8001, 0xAB);
    assert_eq!(cpu.ret(false), 0x0201);
    assert_eq!(cpu.sp, 0x8000);
    assert_eq!(cpu.ret(true), 0xABCD);
    assert_eq!(cpu.sp, 0x8002);
}

#[test]
fn relative_jump_by_minus_two_loops_and_by_zero_falls_through() {
    let mut cpu = CPU::new();
    for pc in [0x0000u16, 0x0001, 0x0100, 0x7FFF, 0xFFFD, 0xFFFE, 0xFFFF] {
        cpu.pc = pc;
        cpu.bus.write_byte(pc.wrapping_add(1), 0xFE);
        assert_eq!(cpu.jump_relative(true), (pc, 16));
        assert_eq!(cpu.execute(Instruction::JR(JumpTest::Always)), Ok((pc, 16)));
        cpu.bus.write_byte(pc.wrapping_add(1), 0x00);
        assert_eq!(cpu.jump_relative(true), (pc.wrapping_add(2), 16));
        assert_eq!(cpu.jump_relative(false), (pc.wrapping_add(2), 12));
    }
}

#[test]
fn relative_jump_reaches_from_minus_128_to_plus_127() {
    let mut cpu = CPU::new();
    cpu.pc = 0x1000;
    cpu.bus.write_byte(0x1001, 0x7F);
    assert_eq!(cpu.jump_relative(true), (0x1081, 16));
    cpu.bus.write_byte(0x1001, 0x80);
    assert_eq!(cpu.jump_relative(true), (0x0F82, 16));
    cpu.bus.write_byte(0x1001, 0xFF);
    assert_eq!(cpu.jump_relative(true), (0x1001, 16));
    cpu.bus.write_byte(0x1001, 0x01);
    assert_eq!(cpu.jump_relative(true), (0x1003, 16));
    cpu.pc = 0x0010;
    cpu.bus.write_byte(0x0011, 0x80);
    assert_eq!(cpu.jump_relative(true), (0xFF92, 16));
    cpu.pc = 0xFFF0;
    cpu.bus.write_byte(0xFFF1, 0x7F);
    assert_eq!(cpu.jump_relative(true), (0x0071, 16));
}

#[test]
fn relative_jump_goes_by_its_condition() {
    let mut cpu = CPU::new();
    cpu.pc = 0x0100;
    cpu.bus.write_byte(0x0101, 0x10);
    cpu.registers.f = flags(true, false, false, false);
    assert_eq!(cpu.execute(Instruction::JR(JumpTest::Zero)), Ok((0x0112, 16)));
    assert_eq!(cpu.execute(Instruction::JR(JumpTest::NotZero)), Ok((0x0102, 12)));
    assert_eq!(cpu.execute(Instruction::JR(JumpTest::NotCarry)), Ok((0x0112, 16)));
    assert_eq!(cpu.execute(Instruction::JR(JumpTest::Carry)), Ok((0x0102, 12)));
}

#[test]
fn absolute_jump_takes_three_bytes_whether_taken_or_not() {
    let mut cpu = CPU::new();
    cpu.pc = 0x0100;
    cpu.bus.write_byte(0x0101, 0x50);
    cpu.bus.write_byte(0x0102, 0x01);
    assert_eq!(cpu.jump(true), (0x0150, 16));
    assert_eq!(cpu.jump(false), (0x0103, 12));
    assert_eq!(cpu.execute(Instruction::JP(JumpTest::Always)), Ok((0x0150, 16)));
    cpu.registers.f = flags(false, false, false, true);
    assert_eq!(cpu.execute(Instruction::JP(JumpTest::Carry)), Ok((0x0150, 16)));
    assert_eq!(cpu.execute(Instruction::JP(JumpTest::NotCarry)), Ok((0x0103, 12)));
    assert_eq!(cpu.execute(Instruction::JP(JumpTest::NotZero)), Ok((0x0150, 16)));
    assert_eq!(cpu.execute(Instruction::JP(JumpTest::Zero)), Ok((0x0103, 12)));
    assert_eq!(cpu.pc, 0x0100);
}

#[test]
fn jump_to_hl() {
    let mut cpu = CPU::new();
    cpu.pc = 0x0100;
    cpu.registers.set_hl(0xC123);
    assert_eq!(cpu.execute(Instruction::JPI), Ok((0xC123, 4)));
    assert_eq!(cpu.registers.get_hl(), 0xC123);
}

#[test]
fn call_pushes_the_address_after_its_three_bytes() {
    let mut cpu = CPU::new();
    cpu.pc = 0x0100;
    cpu.sp = 0xD000;
    cpu.bus.write_byte(0x0101, 0x00);
    cpu.bus.write_byte(0x0102, 0x20);
    assert_eq!(cpu.execute(Instruction::CALL(JumpTest::Always)), Ok((0x2000, 24)));
    assert_eq!(cpu.sp, 0xCFFE);
    assert_eq!(cpu.bus.read_byte(0xCFFF), 0x01);
    assert_eq!(cpu.bus.read_byte(0xCFFE), 0x03);
    assert_eq!(cpu.pop(), 0x0103);
}

#[test]
fn call_not_taken_moves_on_and_leaves_the_stack() {
    let mut cpu = CPU::new();
    cpu.pc = 0x0100;
    cpu.sp = 0xD000;
    cpu.bus.write_byte(0x0101, 0x00);
    cpu.bus.write_byte(0x0102, 0x20);
    cpu.registers.f = flags(false, false, false, false);
    assert_eq!(cpu.execute(Instruction::CALL(JumpTest::Zero)), Ok((0x0103, 12)));
    assert_eq!(cpu.execute(Instruction::CALL(JumpTest::Carry)), Ok((0x0103, 12)));
    assert_eq!(cpu.call(false), (0x0103, 12));
    assert_eq!(cpu.sp, 0xD000);
    assert_eq!(cpu.bus.read_byte(0xCFFF), 0x00);
    assert_eq!(cpu.execute(Instruction::CALL(JumpTest::NotZero)), Ok((0x2000, 24)));
    assert_eq!(cpu.sp, 0xCFFE);
}

#[test]
fn call_then_ret_comes_back() {
    let mut cpu = CPU::new();
    cpu.pc = 0x0100;
    cpu.sp = 0xD000;
    cpu.bus.write_byte(0x0100, 0xCD);
    cpu.bus.write_byte(0x0101, 0x00);
    cpu.bus.write_byte(0x0102, 0x20);
    cpu.bus.write_byte(0x2000, 0xC9);
    assert_eq!(cpu.step(), Ok(24));
    assert_eq!(cpu.pc, 0x2000);
    assert_eq!(cpu.step(), Ok(16));
    assert_eq!(cpu.pc, 0x0103);
    assert_eq!(cpu.sp, 0xD000);
}

#[test]
fn reset_pushes_the_next_address_and_goes_to_its_vector() {
    let locations = [
        (RSTLocation::X00, 0x0000),
        (RSTLocation::X08, 0x0008),
        (RSTLocation::X10, 0x0010),
        (RSTLocation::X18, 0x0018),
        (RSTLocation::X20, 0x0020),
        (RSTLocation::X28, 0x0028),
        (RSTLocation::X30, 0x0030),
        (RSTLocation::X38, 0x0038),
    ];
    for (location, vector) in locations {
        let mut cpu = CPU::new();
        cpu.pc = 0x1234;
        cpu.sp = 0xD000;
        assert_eq!(cpu.execute(Instruction::RST(location)), Ok((vector, 16)));
        assert_eq!(cpu.sp, 0xCFFE);
        assert_eq!(cpu.bus.read_byte(0xCFFF), 0x12);
        assert_eq!(cpu.bus.read_byte(0xCFFE), 0x35);
    }
}

#[test]
fn stubs_change_nothing_and_cost_their_cycles() {
    let stubs = [
        (Instruction::NOP, 4),
        (Instruction::HALT, 4),
        (Instruction::DI, 4),
        (Instruction::EI, 4),
        (Instruction::RETI, 16),
    ];
    for (instruction, cycles) in stubs {
        let mut cpu = CPU::new();
        cpu.pc = 0xFFFF;
        cpu.sp = 0x8000;
        cpu.registers.a = 0x11;
        cpu.registers.f = flags(true, true, true, true);
        let before = cpu.registers;
        assert_eq!(cpu.execute(instruction), Ok((0x0000, cycles)));
        assert_eq!(cpu.registers, before);
        assert_eq!(cpu.sp, 0x8000);
        assert_eq!(cpu.pc, 0xFFFF);
        assert!(cpu.bus.memory.iter().all(|byte| *byte == 0));
    }
}

#[test]
fn conditions_read_the_zero_and_the_carry_flag() {
    let mut cpu = CPU::new();
    cpu.registers.f = flags(true, false, false, false);
    assert!(cpu.test(JumpTest::Zero));
    assert!(!cpu.test(JumpTest::NotZero));
    assert!(!cpu.test(JumpTest::Carry));
    assert!(cpu.test(JumpTest::NotCarry));
    assert!(cpu.test(JumpTest::Always));
    cpu.registers.f = flags(false, true, true, true);
    assert!(!cpu.test(JumpTest::Zero));
    assert!(cpu.test(JumpTest::NotZero));
    assert!(cpu.test(JumpTest::Carry));
    assert!(!cpu.test(JumpTest::NotCarry));
    assert!(cpu.test(JumpTest::Always));
}

#[test]
fn step_runs_add_a_c_from_its_opcode() {
    let mut cpu = CPU::new();
    cpu.pc = 0x0100;
    cpu.bus.write_byte(0x0100, 0x81);
    cpu.registers.a = 0x02;
    cpu.registers.c = 0x04;
    assert_eq!(cpu.step(), Ok(4));
    assert_eq!(cpu.registers.a, 0x06);
    assert!(!cpu.registers.f.carry);
    assert!(!cpu.registers.f.zero);
    assert_eq!(cpu.pc, 0x0101);

    cpu.bus.write_byte(0x0101, 0x81);
    cpu.registers.a = 0xFE;
    assert_eq!(cpu.step(), Ok(4));
    assert_eq!(cpu.registers.a, 0x02);
    assert!(cpu.registers.f.carry);
    assert_eq!(cpu.pc, 0x0102);
}

#[test]
fn step_on_zeroed_memory_is_a_nop() {
    let mut cpu = CPU::new();
    assert_eq!(cpu.step(), Ok(4));
    assert_eq!(cpu.pc, 1);
    cpu.pc = 0xFFFF;
    assert_eq!(cpu.step(), Ok(4));
    assert_eq!(cpu.pc, 0);
}

#[test]
fn step_reads_a_prefixed_opcode_after_the_prefix() {
    let mut cpu = CPU::new();
    cpu.pc = 0x0100;
    cpu.bus.write_byte(0x0100, 0xCB);
    cpu.bus.write_byte(0x0101, 0x37);
    cpu.registers.a = 0xF1;
    assert_eq!(cpu.step(), Ok(8));
    assert_eq!(cpu.registers.a, 0x1F);
    assert_eq!(cpu.pc, 0x0102);

    cpu.pc = 0xFFFF;
    cpu.bus.write_byte(0xFFFF, 0xCB);
    cpu.bus.write_byte(0x0000, 0xC6);
    cpu.registers.set_hl(0x9000);
    assert_eq!(cpu.step(), Ok(16));
    assert_eq!(cpu.bus.read_byte(0x9000), 0x01);
    assert_eq!(cpu.pc, 0x0001);
}

#[test]
fn step_runs_a_short_program() {
    // LD B,0x03; LD A,0x00; ADD A,B; DEC B; JR NZ,-4; LD (0xC000),A
    let program = [0x06, 0x03, 0x3E, 0x00, 0x80, 0x05, 0x20, 0xFC, 0xEA, 0x00, 0xC0];
    let mut cpu = CPU::new();
    cpu.pc = 0x0100;
    for (index, byte) in program.into_iter().enumerate() {
        cpu.bus.write_byte(0x0100 + index as u16, byte);
    }
    let mut cycles: u32 = 0;
    let mut steps = 0;
    while cpu.pc != 0x010B {
        cycles += cpu.step().unwrap() as u32;
        steps += 1;
        assert!(steps < 100);
    }
    assert_eq!(cpu.registers.a, 6);
    assert_eq!(cpu.registers.b, 0);
    assert_eq!(cpu.bus.read_byte(0xC000), 6);
    assert_eq!(steps, 12);
    assert_eq!(cycles, 8 + 8 + 3 * (4 + 4) + 2 * 16 + 12 + 16);
}

#[test]
fn step_reports_an_unknown_opcode_and_changes_nothing() {
    for opcode in [0x10u8, 0xD3, 0xDB, 0xDD, 0xE3, 0xE4, 0xEB, 0xEC, 0xED, 0xF4, 0xFC, 0xFD] {
        let mut cpu = CPU::new();
        cpu.pc = 0x0150;
        cpu.sp = 0xD000;
        cpu.registers.a = 0x42;
        cpu.bus.write_byte(0x0150, opcode);
        let before = cpu.registers;
        assert_eq!(
            cpu.step(),
            Err(Fault::UnknownOpcode { opcode, prefixed: false, pc: 0x0150 })
        );
        assert_eq!(cpu.pc, 0x0150);
        assert_eq!(cpu.sp, 0xD000);
        assert_eq!(cpu.registers, before);
    }
}

#[test]
fn step_reports_what_is_not_carried_out_and_changes_nothing() {
    // ADD A,(HL); ADD A,d8; INC (HL); INC SP; DEC SP; ADD SP,r8; SCF; CCF
    for opcode in [0x86u8, 0xC6, 0x34, 0x33, 0x3B, 0xE8, 0x37, 0x3F] {
        let mut cpu = CPU::new();
        cpu.pc = 0x0150;
        cpu.sp = 0xD000;
        cpu.registers.a = 0x42;
        cpu.registers.f = flags(false, true, false, true);
        cpu.bus.write_byte(0x0150, opcode);
        cpu.bus.write_byte(0x0151, 0x01);
        let before = cpu.registers;
        assert_eq!(
            cpu.step(),
            Err(Fault::Unimplemented { opcode, prefixed: false, pc: 0x0150 })
        );
        assert_eq!(cpu.pc, 0x0150);
        assert_eq!(cpu.sp, 0xD000);
        assert_eq!(cpu.registers, before);
        assert_eq!(cpu.bus.read_byte(0x0000), 0x00);
    }
}

#[test]
fn execute_refuses_what_is_not_carried_out() {
    let mut cpu = CPU::new();
    for instruction in [
        Instruction::ADD(ArithmeticTarget::D8),
        Instruction::ADDSP,
        Instruction::CCF,
        Instruction::SCF,
    ] {
        assert_eq!(cpu.execute(instruction), Err(NotImplemented { instruction }));
    }
}
