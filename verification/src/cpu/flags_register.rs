//! The four condition flags and their packed form.

use vstd::prelude::*;

verus! {

/// The condition flags. In the packed byte, zero is bit 7, subtract bit 6,
/// half-carry bit 5 and carry bit 4; bits 3 to 0 hold nothing.
#[derive(Copy, Clone, Debug, PartialEq, Eq, Structural)]
pub struct FlagsRegister {
    pub zero: bool,
    pub subtract: bool,
    pub half_carry: bool,
    pub carry: bool,
}

impl FlagsRegister {
    /// The packed byte: each set flag sets its bit, and the low nibble is
    /// zero.
    pub open spec fn byte(self) -> u8 {
        packed(self.zero, self.subtract, self.half_carry, self.carry)
    }

    /// The flags that a byte packs. Its low four bits are not looked at.
    pub open spec fn of_byte(byte: u8) -> FlagsRegister {
        FlagsRegister {
            zero: byte & 0x80 != 0,
            subtract: byte & 0x40 != 0,
            half_carry: byte & 0x20 != 0,
            carry: byte & 0x10 != 0,
        }
    }

    /// All four flags clear.
    pub fn new() -> (flags: FlagsRegister)
        ensures
            !flags.zero,
            !flags.subtract,
            !flags.half_carry,
            !flags.carry,
    {
        FlagsRegister { zero: false, subtract: false, half_carry: false, carry: false }
    }
}

impl vstd::std_specs::convert::FromSpecImpl<FlagsRegister> for u8 {
    open spec fn obeys_from_spec() -> bool {
        true
    }

    open spec fn from_spec(flags: FlagsRegister) -> u8 {
        flags.byte()
    }
}

impl std::convert::From<FlagsRegister> for u8 {
    /// Packs the flags into the high nibble of a byte.
    fn from(flags: FlagsRegister) -> (byte: u8) {
        let zero: u8 = if flags.zero { 0x80 } else { 0 };
        let subtract: u8 = if flags.subtract { 0x40 } else { 0 };
        let half_carry: u8 = if flags.half_carry { 0x20 } else { 0 };
        let carry: u8 = if flags.carry { 0x10 } else { 0 };
        zero | subtract | half_carry | carry
    }
}

impl vstd::std_specs::convert::FromSpecImpl<u8> for FlagsRegister {
    open spec fn obeys_from_spec() -> bool {
        true
    }

    open spec fn from_spec(byte: u8) -> FlagsRegister {
        FlagsRegister::of_byte(byte)
    }
}

impl std::convert::From<u8> for FlagsRegister {
    /// Reads the flags out of the high nibble of a byte.
    fn from(byte: u8) -> (flags: FlagsRegister) {
        FlagsRegister {
            zero: byte & 0x80 != 0,
            subtract: byte & 0x40 != 0,
            half_carry: byte & 0x20 != 0,
            carry: byte & 0x10 != 0,
        }
    }
}

/// The byte that packs four flags: bit 7 for zero, bit 6 for subtract, bit 5
/// for half-carry and bit 4 for carry.
pub open spec fn packed(zero: bool, subtract: bool, half_carry: bool, carry: bool) -> u8 {
    (if zero {
        0x80u8
    } else {
        0u8
    }) | (if subtract {
        0x40u8
    } else {
        0u8
    }) | (if half_carry {
        0x20u8
    } else {
        0u8
    }) | (if carry {
        0x10u8
    } else {
        0u8
    })
}

proof fn lemma_packed_bits(zero: bool, subtract: bool, half_carry: bool, carry: bool)
    by (bit_vector)
    ensures
        (packed(zero, subtract, half_carry, carry) & 0x80 != 0) == zero,
        (packed(zero, subtract, half_carry, carry) & 0x40 != 0) == subtract,
        (packed(zero, subtract, half_carry, carry) & 0x20 != 0) == half_carry,
        (packed(zero, subtract, half_carry, carry) & 0x10 != 0) == carry,
        packed(zero, subtract, half_carry, carry) & 0x0F == 0,
        packed(zero, subtract, half_carry, carry) == (if zero {
            128int
        } else {
            0
        }) + (if subtract {
            64int
        } else {
            0
        }) + (if half_carry {
            32int
        } else {
            0
        }) + (if carry {
            16int
        } else {
            0
        }),
{
}

proof fn lemma_unpacked_bits(byte: u8)
    by (bit_vector)
    ensures
        packed(byte & 0x80 != 0, byte & 0x40 != 0, byte & 0x20 != 0, byte & 0x10 != 0) == byte
            & 0xF0,
{
}

/// Packing and unpacking lose nothing: the flags read out of a packed byte
/// are the flags that were packed. The low nibble of a packed byte is zero,
/// and its value is the sum of the weights 128, 64, 32 and 16 of the flags
/// that are set, from zero down to carry.
pub proof fn lemma_flags_round_trip(flags: FlagsRegister)
    ensures
        FlagsRegister::of_byte(flags.byte()) == flags,
        flags.byte() & 0x0F == 0,
        flags.byte() == (if flags.zero {
            128int
        } else {
            0
        }) + (if flags.subtract {
            64int
        } else {
            0
        }) + (if flags.half_carry {
            32int
        } else {
            0
        }) + (if flags.carry {
            16int
        } else {
            0
        }),
{
    lemma_packed_bits(flags.zero, flags.subtract, flags.half_carry, flags.carry);
}

/// Unpacking and packing a byte keeps its high nibble and clears its low
/// one.
pub proof fn lemma_byte_round_trip(byte: u8)
    ensures
        FlagsRegister::of_byte(byte).byte() == byte & 0xF0,
{
    lemma_unpacked_bits(byte);
}

} // verus!
