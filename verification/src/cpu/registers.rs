//! The register file: seven 8-bit registers, the flags, and the 16-bit
//! pairs read and written through them.

use vstd::prelude::*;
use crate::cpu::flags_register::{lemma_byte_round_trip, lemma_flags_round_trip, FlagsRegister};

verus! {

/// The 16-bit value whose high byte is `high` and whose low byte is `low`.
pub open spec fn word_of(high: u8, low: u8) -> u16 {
    ((high as u16) << 8) | (low as u16)
}

/// The high byte of a 16-bit value.
pub open spec fn high_byte(word: u16) -> u8 {
    (word >> 8) as u8
}

/// The low byte of a 16-bit value.
pub open spec fn low_byte(word: u16) -> u8 {
    (word & 0xFF) as u8
}

/// Joins two bytes into a 16-bit value.
pub fn join_bytes(high: u8, low: u8) -> (word: u16)
    ensures
        word == word_of(high, low),
{
    ((high as u16) << 8) | (low as u16)
}

/// Splits a 16-bit value into its high and its low byte.
pub fn split_word(word: u16) -> (bytes: (u8, u8))
    ensures
        bytes.0 == high_byte(word),
        bytes.1 == low_byte(word),
{
    assert(word >> 8 < 256 && word & 0xFF < 256) by (bit_vector);
    ((word >> 8) as u8, (word & 0xFF) as u8)
}

proof fn lemma_join_split(word: u16, high: u8, low: u8)
    by (bit_vector)
    ensures
        word_of(high_byte(word), low_byte(word)) == word,
        high_byte(word_of(high, low)) == high,
        low_byte(word_of(high, low)) == low,
        word_of(high, low) == high * 256 + low,
        high_byte(word) == word / 256,
        low_byte(word) == word % 256,
{
}

/// A 16-bit value is its two bytes joined, and no other two bytes give it.
/// In numbers, the value is 256 times its high byte plus its low byte.
pub proof fn lemma_word_bytes(word: u16, high: u8, low: u8)
    ensures
        word_of(high_byte(word), low_byte(word)) == word,
        high_byte(word_of(high, low)) == high,
        low_byte(word_of(high, low)) == low,
        word_of(high, low) == high * 256 + low,
        high_byte(word) == word / 256,
        low_byte(word) == word % 256,
{
    lemma_join_split(word, high, low);
}

/// The registers A, B, C, D, E, H and L, and the flags F. None shares
/// storage with another; the pairs AF, BC, DE and HL are computed from them.
#[derive(Copy, Clone, Debug, PartialEq, Eq, Structural)]
pub struct Registers {
    pub a: u8,
    pub b: u8,
    pub c: u8,
    pub d: u8,
    pub e: u8,
    pub f: FlagsRegister,
    pub h: u8,
    pub l: u8,
}

impl Registers {
    /// The pair AF: the accumulator above the packed flags.
    pub open spec fn af(self) -> u16 {
        word_of(self.a, self.f.byte())
    }

    /// The pair BC.
    pub open spec fn bc(self) -> u16 {
        word_of(self.b, self.c)
    }

    /// The pair DE.
    pub open spec fn de(self) -> u16 {
        word_of(self.d, self.e)
    }

    /// The pair HL.
    pub open spec fn hl(self) -> u16 {
        word_of(self.h, self.l)
    }

    /// The registers after AF is written: A takes the high byte, the flags
    /// are read out of the low byte, whose low nibble is dropped.
    pub open spec fn with_af(self, value: u16) -> Registers {
        Registers { a: high_byte(value), f: FlagsRegister::of_byte(low_byte(value)), ..self }
    }

    /// The registers after BC is written.
    pub open spec fn with_bc(self, value: u16) -> Registers {
        Registers { b: high_byte(value), c: low_byte(value), ..self }
    }

    /// The registers after DE is written.
    pub open spec fn with_de(self, value: u16) -> Registers {
        Registers { d: high_byte(value), e: low_byte(value), ..self }
    }

    /// The registers after HL is written.
    pub open spec fn with_hl(self, value: u16) -> Registers {
        Registers { h: high_byte(value), l: low_byte(value), ..self }
    }

    /// The registers at power-on: all zero, all flags clear.
    pub open spec fn initial() -> Registers {
        Registers {
            a: 0,
            b: 0,
            c: 0,
            d: 0,
            e: 0,
            f: FlagsRegister { zero: false, subtract: false, half_carry: false, carry: false },
            h: 0,
            l: 0,
        }
    }

    /// A register file with every register zero and every flag clear.
    pub fn new() -> (registers: Registers)
        ensures
            registers == Registers::initial(),
    {
        Registers { a: 0, b: 0, c: 0, d: 0, e: 0, f: FlagsRegister::new(), h: 0, l: 0 }
    }

    /// Reads AF. The low nibble of the result is zero.
    pub fn get_af(&self) -> (value: u16)
        ensures
            value == self.af(),
    {
        join_bytes(self.a, u8::from(self.f))
    }

    /// Reads BC.
    pub fn get_bc(&self) -> (value: u16)
        ensures
            value == self.bc(),
    {
        join_bytes(self.b, self.c)
    }

    /// Reads DE.
    pub fn get_de(&self) -> (value: u16)
        ensures
            value == self.de(),
    {
        join_bytes(self.d, self.e)
    }

    /// Reads HL.
    pub fn get_hl(&self) -> (value: u16)
        ensures
            value == self.hl(),
    {
        join_bytes(self.h, self.l)
    }

    /// Writes AF. Only the four flag bits of the low byte are kept.
    pub fn set_af(&mut self, value: u16)
        ensures
            *final(self) == old(self).with_af(value),
    {
        let (high, low) = split_word(value);
        self.a = high;
        self.f = FlagsRegister::from(low);
    }

    /// Writes BC.
    pub fn set_bc(&mut self, value: u16)
        ensures
            *final(self) == old(self).with_bc(value),
    {
        let (high, low) = split_word(value);
        self.b = high;
        self.c = low;
    }

    /// Writes DE.
    pub fn set_de(&mut self, value: u16)
        ensures
            *final(self) == old(self).with_de(value),
    {
        let (high, low) = split_word(value);
        self.d = high;
        self.e = low;
    }

    /// Writes HL.
    pub fn set_hl(&mut self, value: u16)
        ensures
            *final(self) == old(self).with_hl(value),
    {
        let (high, low) = split_word(value);
        self.h = high;
        self.l = low;
    }
}

/// A pair that was written reads back as written.
pub proof fn lemma_pair_read_after_write(registers: Registers, value: u16)
    ensures
        registers.with_bc(value).bc() == value,
        registers.with_de(value).de() == value,
        registers.with_hl(value).hl() == value,
{
    lemma_word_bytes(value, 0, 0);
}

/// AF reads back as written but for its low nibble, which reads as zero.
pub proof fn lemma_af_read_after_write(registers: Registers, value: u16)
    ensures
        registers.with_af(value).af() == value & 0xFFF0,
{
    let high = high_byte(value);
    let low = low_byte(value);
    lemma_byte_round_trip(low);
    assert(word_of(high_byte(value), low_byte(value) & 0xF0) == value & 0xFFF0) by (bit_vector);
}

/// Writing a pair with the value it holds changes nothing.
pub proof fn lemma_pair_write_after_read(registers: Registers)
    ensures
        registers.with_af(registers.af()) == registers,
        registers.with_bc(registers.bc()) == registers,
        registers.with_de(registers.de()) == registers,
        registers.with_hl(registers.hl()) == registers,
{
    lemma_word_bytes(0, registers.a, registers.f.byte());
    lemma_word_bytes(0, registers.b, registers.c);
    lemma_word_bytes(0, registers.d, registers.e);
    lemma_word_bytes(0, registers.h, registers.l);
    lemma_flags_round_trip(registers.f);
}

} // verus!
