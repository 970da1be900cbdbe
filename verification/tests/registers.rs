use dmg_01::cpu::flags_register::FlagsRegister;
use dmg_01::cpu::instruction::{BitPosition, RSTLocation};
use dmg_01::cpu::registers::{join_bytes, split_word, Registers};
use dmg_01::memory_bus::{MemoryBus, MEMORY_SIZE};

fn flags(zero: bool, subtract: bool, half_carry: bool, carry: bool) -> FlagsRegister {
    FlagsRegister { zero, subtract, half_carry, carry }
}

#[test]
fn new_registers_are_zero() {
    let registers = Registers::new();
    assert_eq!(registers.a, 0);
    assert_eq!(registers.get_af(), 0);
    assert_eq!(registers.get_bc(), 0);
    assert_eq!(registers.get_de(), 0);
    assert_eq!(registers.get_hl(), 0);
    assert_eq!(registers.f, flags(false, false, false, false));
    assert_eq!(FlagsRegister::new(), flags(false, false, false, false));
}

#[test]
fn each_flag_has_its_bit() {
    assert_eq!(u8::from(flags(true, false, false, false)), 0x80);
    assert_eq!(u8::from(flags(false, true, false, false)), 0x40);
    assert_eq!(u8::from(flags(false, false, true, false)), 0x20);
    assert_eq!(u8::from(flags(false, false, false, true)), 0x10);
    assert_eq!(u8::from(flags(true, true, true, true)), 0xF0);
    assert_eq!(u8::from(flags(false, false, false, false)), 0x00);
    assert_eq!(FlagsRegister::from(0x80), flags(true, false, false, false));
    assert_eq!(FlagsRegister::from(0x40), flags(false, true, false, false));
    assert_eq!(FlagsRegister::from(0x20), flags(false, false, true, false));
    assert_eq!(FlagsRegister::from(0x10), flags(false, false, false, true));
}

#[test]
fn flags_survive_packing_and_the_low_nibble_does_not() {
    for byte in 0..=255u8 {
        let unpacked = FlagsRegister::from(byte);
        assert_eq!(u8::from(unpacked), byte & 0xF0);
        assert_eq!(FlagsRegister::from(u8::from(unpacked)), unpacked);
    }
    assert_eq!(FlagsRegister::from(0x0F), flags(false, false, false, false));
}

#[test]
fn pairs_put_the_first_register_in_the_high_byte() {
    let mut registers = Registers::new();
    registers.a = 0x01;
    registers.f = flags(true, false, false, true);
    registers.b = 0x23;
    registers.c = 0x45;
    registers.d = 0x67;
    registers.e = 0x89;
    registers.h = 0xAB;
    registers.l = 0xCD;
    assert_eq!(registers.get_af(), 0x0190);
    assert_eq!(registers.get_bc(), 0x2345);
    assert_eq!(registers.get_de(), 0x6789);
    assert_eq!(registers.get_hl(), 0xABCD);
}

#[test]
fn writing_a_pair_splits_it_and_touches_no_other_register() {
    let mut registers = Registers::new();
    registers.set_bc(0x1234);
    assert_eq!((registers.b, registers.c), (0x12, 0x34));
    registers.set_de(0x5678);
    assert_eq!((registers.d, registers.e), (0x56, 0x78));
    registers.set_hl(0x9ABC);
    assert_eq!((registers.h, registers.l), (0x9A, 0xBC));
    assert_eq!(registers.a, 0);
    assert_eq!(registers.f, flags(false, false, false, false));
    assert_eq!(registers.get_bc(), 0x1234);
    assert_eq!(registers.get_de(), 0x5678);
    assert_eq!(registers.get_hl(), 0x9ABC);
}

#[test]
fn writing_af_drops_the_low_nibble() {
    let mut registers = Registers::new();
    registers.set_af(0x12FF);
    assert_eq!(registers.a, 0x12);
    assert_eq!(registers.f, flags(true, true, true, true));
    assert_eq!(registers.get_af(), 0x12F0);
    registers.set_af(0xFF0F);
    assert_eq!(registers.a, 0xFF);
    assert_eq!(registers.f, flags(false, false, false, false));
    assert_eq!(registers.get_af(), 0xFF00);
    registers.set_af(0x00A5);
    assert_eq!(registers.f, flags(true, false, true, false));
    assert_eq!(registers.get_af(), 0x00A0);
    assert_eq!(registers.get_bc(), 0);
}

#[test]
fn words_split_and_join() {
    assert_eq!(join_bytes(0x12, 0x34), 0x1234);
    assert_eq!(join_bytes(0x00, 0xFF), 0x00FF);
    assert_eq!(join_bytes(0xFF, 0x00), 0xFF00);
    assert_eq!(split_word(0x1234), (0x12, 0x34));
    assert_eq!(split_word(0xFF00), (0xFF, 0x00));
    for word in [0x0000u16, 0x0001, 0x00FF, 0x0100, 0x7FFF, 0x8000, 0xFFFF] {
        let (high, low) = split_word(word);
        assert_eq!(join_bytes(high, low), word);
    }
}

#[test]
fn bit_positions_count_from_zero() {
    assert_eq!(u8::from(BitPosition::B0), 0);
    assert_eq!(u8::from(BitPosition::B1), 1);
    assert_eq!(u8::from(BitPosition::B2), 2);
    assert_eq!(u8::from(BitPosition::B3), 3);
    assert_eq!(u8::from(BitPosition::B4), 4);
    assert_eq!(u8::from(BitPosition::B5), 5);
    assert_eq!(u8::from(BitPosition::B6), 6);
    assert_eq!(u8::from(BitPosition::B7), 7);
    let position: u8 = BitPosition::B5.into();
    assert_eq!(position, 5);
}

#[test]
fn reset_locations_are_eight_apart() {
    assert_eq!(RSTLocation::X00.to_hex(), 0x00);
    assert_eq!(RSTLocation::X08.to_hex(), 0x08);
    assert_eq!(RSTLocation::X10.to_hex(), 0x10);
    assert_eq!(RSTLocation::X18.to_hex(), 0x18);
    assert_eq!(RSTLocation::X20.to_hex(), 0x20);
    assert_eq!(RSTLocation::X28.to_hex(), 0x28);
    assert_eq!(RSTLocation::X30.to_hex(), 0x30);
    assert_eq!(RSTLocation::X38.to_hex(), 0x38);
}

#[test]
fn memory_starts_zeroed_and_covers_every_address() {
    let mut bus = MemoryBus::new();
    assert_eq!(MEMORY_SIZE, 0x10000);
    assert_eq!(bus.memory.len(), 0x10000);
    assert_eq!(bus.read_byte(0x0000), 0);
    assert_eq!(bus.read_byte(0x8000), 0);
    assert_eq!(bus.read_byte(0xFFFF), 0);
    bus.write_byte(0xFFFF, 0xAA);
    bus.write_byte(0x0000, 0x55);
    assert_eq!(bus.read_byte(0xFFFF), 0xAA);
    assert_eq!(bus.read_byte(0x0000), 0x55);
    assert_eq!(bus.read_byte(0xFFFE), 0);
    assert_eq!(bus.read_byte(0x0001), 0);
    bus.write_byte(0xFFFF, 0x01);
    assert_eq!(bus.read_byte(0xFFFF), 0x01);
}
