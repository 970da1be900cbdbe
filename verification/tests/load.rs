use dmg_01::cpu::flags_register::FlagsRegister;
use dmg_01::cpu::instruction::{
    Indirect, Instruction, LoadByteSource, LoadByteTarget, LoadType, LoadWordTarget,
};
use dmg_01::cpu::load::execute;
use dmg_01::cpu::{NotImplemented, CPU};

fn flags(zero: bool, subtract: bool, half_carry: bool, carry: bool) -> FlagsRegister {
    FlagsRegister { zero, subtract, half_carry, carry }
}

#[test]
#[allow(non_snake_case)]
fn load_test__FIXME() {
    assert!(true)
}

#[test]
fn register_to_register_is_one_byte_and_four_cycles() {
    let mut cpu = CPU::new();
    cpu.pc = 0x0100;
    cpu.registers.b = 0x5A;
    cpu.registers.f = flags(true, false, true, false);
    let instruction = Instruction::LD(LoadType::Byte(LoadByteTarget::A, LoadByteSource::B));
    assert_eq!(execute(&mut cpu, instruction), Ok((0x0101, 4)));
    assert_eq!(cpu.registers.a, 0x5A);
    assert_eq!(cpu.registers.b, 0x5A);
    assert_eq!(cpu.registers.f, flags(true, false, true, false));
    assert_eq!(cpu.pc, 0x0100);
}

#[test]
fn every_register_can_be_source_and_target() {
    let sources = [
        LoadByteSource::A,
        LoadByteSource::B,
        LoadByteSource::C,
        LoadByteSource::D,
        LoadByteSource::E,
        LoadByteSource::H,
        LoadByteSource::L,
    ];
    let targets = [
        LoadByteTarget::A,
        LoadByteTarget::B,
        LoadByteTarget::C,
        LoadByteTarget::D,
        LoadByteTarget::E,
        LoadByteTarget::H,
        LoadByteTarget::L,
    ];
    for (from, source) in sources.into_iter().enumerate() {
        for (to, target) in targets.into_iter().enumerate() {
            let mut cpu = CPU::new();
            cpu.registers.a = 10;
            cpu.registers.b = 11;
            cpu.registers.c = 12;
            cpu.registers.d = 13;
            cpu.registers.e = 14;
            cpu.registers.h = 15;
            cpu.registers.l = 16;
            let mut expected = [10u8, 11, 12, 13, 14, 15, 16];
            expected[to] = expected[from];
            let result = execute(&mut cpu, Instruction::LD(LoadType::Byte(target, source)));
            assert_eq!(result, Ok((1, 4)));
            let r = cpu.registers;
            assert_eq!([r.a, r.b, r.c, r.d, r.e, r.h, r.l], expected);
        }
    }
}

#[test]
fn immediate_byte_is_two_bytes_and_eight_cycles() {
    let mut cpu = CPU::new();
    cpu.pc = 0x0100;
    cpu.bus.write_byte(0x0101, 0x42);
    let instruction = Instruction::LD(LoadType::Byte(LoadByteTarget::D, LoadByteSource::D8));
    assert_eq!(execute(&mut cpu, instruction), Ok((0x0102, 8)));
    assert_eq!(cpu.registers.d, 0x42);
}

#[test]
fn byte_at_hl_as_source_is_one_byte_and_eight_cycles() {
    let mut cpu = CPU::new();
    cpu.pc = 0x0100;
    cpu.registers.set_hl(0xC000);
    cpu.bus.write_byte(0xC000, 0x99);
    let instruction = Instruction::LD(LoadType::Byte(LoadByteTarget::E, LoadByteSource::HLI));
    assert_eq!(execute(&mut cpu, instruction), Ok((0x0101, 8)));
    assert_eq!(cpu.registers.e, 0x99);
}

#[test]
fn byte_at_hl_as_target_is_one_byte_and_eight_cycles() {
    let mut cpu = CPU::new();
    cpu.pc = 0x0100;
    cpu.registers.set_hl(0xC000);
    cpu.registers.c = 0x31;
    let instruction = Instruction::LD(LoadType::Byte(LoadByteTarget::HLI, LoadByteSource::C));
    assert_eq!(execute(&mut cpu, instruction), Ok((0x0101, 8)));
    assert_eq!(cpu.bus.read_byte(0xC000), 0x31);
    assert_eq!(cpu.registers.get_hl(), 0xC000);
}

#[test]
fn immediate_byte_to_the_byte_at_hl() {
    let mut cpu = CPU::new();
    cpu.pc = 0x0100;
    cpu.registers.set_hl(0xC000);
    cpu.bus.write_byte(0x0101, 0x77);
    let instruction = Instruction::LD(LoadType::Byte(LoadByteTarget::HLI, LoadByteSource::D8));
    assert_eq!(execute(&mut cpu, instruction), Ok((0x0102, 8)));
    assert_eq!(cpu.bus.read_byte(0xC000), 0x77);
}

#[test]
fn word_load_reads_the_low_byte_first() {
    let mut cpu = CPU::new();
    cpu.pc = 0x0100;
    cpu.bus.write_byte(0x0101, 0x34);
    cpu.bus.write_byte(0x0102, 0x12);
    assert_eq!(
        execute(&mut cpu, Instruction::LD(LoadType::Word(LoadWordTarget::BC))),
        Ok((0x0103, 12))
    );
    assert_eq!(cpu.registers.get_bc(), 0x1234);
    assert_eq!(cpu.registers.b, 0x12);
    assert_eq!(cpu.registers.c, 0x34);
    let _ = execute(&mut cpu, Instruction::LD(LoadType::Word(LoadWordTarget::DE)));
    assert_eq!(cpu.registers.get_de(), 0x1234);
    let _ = execute(&mut cpu, Instruction::LD(LoadType::Word(LoadWordTarget::HL)));
    assert_eq!(cpu.registers.get_hl(), 0x1234);
    let _ = execute(&mut cpu, Instruction::LD(LoadType::Word(LoadWordTarget::SP)));
    assert_eq!(cpu.sp, 0x1234);
}

#[test]
fn operands_wrap_round_the_end_of_memory() {
    let mut cpu = CPU::new();
    cpu.pc = 0xFFFF;
    cpu.bus.write_byte(0x0000, 0xCD);
    cpu.bus.write_byte(0x0001, 0xAB);
    assert_eq!(cpu.read_next_byte(), 0xCD);
    assert_eq!(cpu.read_next_word(), 0xABCD);
    assert_eq!(
        execute(&mut cpu, Instruction::LD(LoadType::Word(LoadWordTarget::HL))),
        Ok((0x0002, 12))
    );
    assert_eq!(cpu.registers.get_hl(), 0xABCD);
    cpu.pc = 0xFFFE;
    cpu.bus.write_byte(0xFFFF, 0x11);
    assert_eq!(cpu.read_next_byte(), 0x11);
    assert_eq!(cpu.read_next_word(), 0xCD11);
}

#[test]
fn accumulator_from_a_register_pair() {
    let mut cpu = CPU::new();
    cpu.pc = 0x0100;
    cpu.registers.set_bc(0xC001);
    cpu.registers.set_de(0xC002);
    cpu.bus.write_byte(0xC001, 0x0B);
    cpu.bus.write_byte(0xC002, 0x0D);
    let instruction = Instruction::LD(LoadType::AFromIndirect(Indirect::BCIndirect));
    assert_eq!(execute(&mut cpu, instruction), Ok((0x0101, 8)));
    assert_eq!(cpu.registers.a, 0x0B);
    let instruction = Instruction::LD(LoadType::AFromIndirect(Indirect::DEIndirect));
    assert_eq!(execute(&mut cpu, instruction), Ok((0x0101, 8)));
    assert_eq!(cpu.registers.a, 0x0D);
    assert_eq!(cpu.registers.get_bc(), 0xC001);
    assert_eq!(cpu.registers.get_de(), 0xC002);
}

#[test]
fn accumulator_from_hl_steps_hl_after_the_read() {
    let mut cpu = CPU::new();
    cpu.registers.set_hl(0xC000);
    cpu.bus.write_byte(0xBFFF, 0x01);
    cpu.bus.write_byte(0xC000, 0x02);
    cpu.bus.write_byte(0xC001, 0x03);
    let instruction = Instruction::LD(LoadType::AFromIndirect(Indirect::HLIndirectPlus));
    assert_eq!(execute(&mut cpu, instruction), Ok((1, 8)));
    assert_eq!(cpu.registers.a, 0x02);
    assert_eq!(cpu.registers.get_hl(), 0xC001);
    let instruction = Instruction::LD(LoadType::AFromIndirect(Indirect::HLIndirectMinus));
    assert_eq!(execute(&mut cpu, instruction), Ok((1, 8)));
    assert_eq!(cpu.registers.a, 0x03);
    assert_eq!(cpu.registers.get_hl(), 0xC000);
}

#[test]
fn stepping_hl_wraps_round() {
    let mut cpu = CPU::new();
    cpu.registers.set_hl(0xFFFF);
    cpu.registers.a = 0x5C;
    let instruction = Instruction::LD(LoadType::IndirectFromA(Indirect::HLIndirectPlus));
    assert_eq!(execute(&mut cpu, instruction), Ok((1, 8)));
    assert_eq!(cpu.bus.read_byte(0xFFFF), 0x5C);
    assert_eq!(cpu.registers.get_hl(), 0x0000);
    let instruction = Instruction::LD(LoadType::IndirectFromA(Indirect::HLIndirectMinus));
    assert_eq!(execute(&mut cpu, instruction), Ok((1, 8)));
    assert_eq!(cpu.bus.read_byte(0x0000), 0x5C);
    assert_eq!(cpu.registers.get_hl(), 0xFFFF);
}

#[test]
fn accumulator_to_a_register_pair() {
    let mut cpu = CPU::new();
    cpu.registers.a = 0xA5;
    cpu.registers.set_bc(0xC001);
    cpu.registers.set_de(0xC002);
    let instruction = Instruction::LD(LoadType::IndirectFromA(Indirect::BCIndirect));
    assert_eq!(execute(&mut cpu, instruction), Ok((1, 8)));
    assert_eq!(cpu.bus.read_byte(0xC001), 0xA5);
    assert_eq!(cpu.bus.read_byte(0xC002), 0x00);
    let instruction = Instruction::LD(LoadType::IndirectFromA(Indirect::DEIndirect));
    assert_eq!(execute(&mut cpu, instruction), Ok((1, 8)));
    assert_eq!(cpu.bus.read_byte(0xC002), 0xA5);
}

#[test]
fn accumulator_through_a_16_bit_address_is_three_bytes_and_sixteen_cycles() {
    let mut cpu = CPU::new();
    cpu.pc = 0x0100;
    cpu.bus.write_byte(0x0101, 0x10);
    cpu.bus.write_byte(0x0102, 0xD0);
    cpu.registers.a = 0x3C;
    let instruction = Instruction::LD(LoadType::IndirectFromA(Indirect::WordIndirect));
    assert_eq!(execute(&mut cpu, instruction), Ok((0x0103, 16)));
    assert_eq!(cpu.bus.read_byte(0xD010), 0x3C);
    cpu.bus.write_byte(0xD010, 0x3D);
    let instruction = Instruction::LD(LoadType::AFromIndirect(Indirect::WordIndirect));
    assert_eq!(execute(&mut cpu, instruction), Ok((0x0103, 16)));
    assert_eq!(cpu.registers.a, 0x3D);
}

#[test]
fn accumulator_through_the_high_page_at_c() {
    let mut cpu = CPU::new();
    cpu.registers.c = 0x80;
    cpu.registers.a = 0x21;
    let instruction = Instruction::LD(LoadType::IndirectFromA(Indirect::LastByteIndirect));
    assert_eq!(execute(&mut cpu, instruction), Ok((1, 8)));
    assert_eq!(cpu.bus.read_byte(0xFF80), 0x21);
    cpu.registers.c = 0xFF;
    cpu.bus.write_byte(0xFFFF, 0x22);
    let instruction = Instruction::LD(LoadType::AFromIndirect(Indirect::LastByteIndirect));
    assert_eq!(execute(&mut cpu, instruction), Ok((1, 8)));
    assert_eq!(cpu.registers.a, 0x22);
}

#[test]
fn accumulator_through_the_high_page_at_an_immediate_offset() {
    let mut cpu = CPU::new();
    cpu.pc = 0x0100;
    cpu.bus.write_byte(0x0101, 0x44);
    cpu.registers.a = 0x9E;
    assert_eq!(
        execute(&mut cpu, Instruction::LD(LoadType::ByteAddressFromA)),
        Ok((0x0102, 12))
    );
    assert_eq!(cpu.bus.read_byte(0xFF44), 0x9E);
    cpu.bus.write_byte(0xFF44, 0x9F);
    assert_eq!(
        execute(&mut cpu, Instruction::LD(LoadType::AFromByteAddress)),
        Ok((0x0102, 12))
    );
    assert_eq!(cpu.registers.a, 0x9F);
}

#[test]
fn stack_pointer_from_hl() {
    let mut cpu = CPU::new();
    cpu.pc = 0x0100;
    cpu.registers.set_hl(0xDFFF);
    assert_eq!(execute(&mut cpu, Instruction::LD(LoadType::SPFromHL)), Ok((0x0101, 8)));
    assert_eq!(cpu.sp, 0xDFFF);
    assert_eq!(cpu.registers.get_hl(), 0xDFFF);
}

#[test]
fn stack_pointer_to_memory_stores_the_low_byte_first() {
    let mut cpu = CPU::new();
    cpu.pc = 0x0100;
    cpu.sp = 0xBEEF;
    cpu.bus.write_byte(0x0101, 0xFF);
    cpu.bus.write_byte(0x0102, 0xFF);
    assert_eq!(execute(&mut cpu, Instruction::LD(LoadType::IndirectFromSP)), Ok((0x0103, 20)));
    assert_eq!(cpu.bus.read_byte(0xFFFF), 0xEF);
    assert_eq!(cpu.bus.read_byte(0x0000), 0xBE);
    assert_eq!(cpu.sp, 0xBEEF);
}

#[test]
fn hl_from_sp_plus_a_positive_displacement() {
    let mut cpu = CPU::new();
    cpu.pc = 0x0100;
    cpu.sp = 0x00FF;
    cpu.bus.write_byte(0x0101, 0x01);
    cpu.registers.f = flags(true, true, false, false);
    assert_eq!(execute(&mut cpu, Instruction::LD(LoadType::HLFromSPN)), Ok((0x0102, 12)));
    assert_eq!(cpu.registers.get_hl(), 0x0100);
    assert_eq!(cpu.sp, 0x00FF);
    assert_eq!(cpu.registers.f, flags(false, false, true, true));

    cpu.sp = 0x0FF0;
    cpu.bus.write_byte(0x0101, 0x0F);
    assert_eq!(execute(&mut cpu, Instruction::LD(LoadType::HLFromSPN)), Ok((0x0102, 12)));
    assert_eq!(cpu.registers.get_hl(), 0x0FFF);
    assert_eq!(cpu.registers.f, flags(false, false, false, false));
}

#[test]
fn hl_from_sp_plus_a_negative_displacement() {
    let mut cpu = CPU::new();
    cpu.pc = 0x0100;
    cpu.sp = 0x1000;
    cpu.bus.write_byte(0x0101, 0xFF);
    assert_eq!(execute(&mut cpu, Instruction::LD(LoadType::HLFromSPN)), Ok((0x0102, 12)));
    assert_eq!(cpu.registers.get_hl(), 0x0FFF);
    assert_eq!(cpu.registers.f, flags(false, false, false, false));

    cpu.sp = 0x0001;
    cpu.bus.write_byte(0x0101, 0xFE);
    let _ = execute(&mut cpu, Instruction::LD(LoadType::HLFromSPN));
    assert_eq!(cpu.registers.get_hl(), 0xFFFF);
    assert_eq!(cpu.registers.f, flags(false, false, false, false));

    cpu.sp = 0x0012;
    cpu.bus.write_byte(0x0101, 0x80);
    let _ = execute(&mut cpu, Instruction::LD(LoadType::HLFromSPN));
    assert_eq!(cpu.registers.get_hl(), 0xFF92);
    assert_eq!(cpu.registers.f, flags(false, false, false, false));

    cpu.sp = 0x00FF;
    cpu.bus.write_byte(0x0101, 0xFF);
    let _ = execute(&mut cpu, Instruction::LD(LoadType::HLFromSPN));
    assert_eq!(cpu.registers.get_hl(), 0x00FE);
    assert_eq!(cpu.registers.f, flags(false, false, true, true));
}

#[test]
fn an_instruction_that_is_no_load_is_refused() {
    let mut cpu = CPU::new();
    let instruction = Instruction::NOP;
    assert_eq!(execute(&mut cpu, instruction), Err(NotImplemented { instruction }));
    let instruction = Instruction::DAA;
    assert_eq!(execute(&mut cpu, instruction), Err(NotImplemented { instruction }));
}
