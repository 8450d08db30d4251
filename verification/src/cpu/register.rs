//! The eight 8-bit registers and their four 16-bit pairings.

use vstd::prelude::*;

verus! {

/// The 16-bit register pairs, each made of two 8-bit registers, high byte first.
#[derive(Copy, Clone, PartialEq, Eq, Debug, Structural)]
pub enum RegWord {
    Af,
    Bc,
    De,
    Hl,
}

/// The 8-bit registers.
#[derive(Copy, Clone, PartialEq, Eq, Debug, Structural)]
pub enum RegByte {
    A,
    F,
    B,
    C,
    D,
    E,
    H,
    L,
}

impl RegWord {
    /// The register that holds the high byte of the pair.
    pub open spec fn high(self) -> RegByte {
        match self {
            RegWord::Af => RegByte::A,
            RegWord::Bc => RegByte::B,
            RegWord::De => RegByte::D,
            RegWord::Hl => RegByte::H,
        }
    }

    /// The register that holds the low byte of the pair.
    pub open spec fn low(self) -> RegByte {
        match self {
            RegWord::Af => RegByte::F,
            RegWord::Bc => RegByte::C,
            RegWord::De => RegByte::E,
            RegWord::Hl => RegByte::L,
        }
    }

    /// Splits the pair into its two halves, high register first.
    pub fn halves(self) -> (pair: (RegByte, RegByte))
        ensures
            pair.0 == self.high(),
            pair.1 == self.low(),
    {
        match self {
            RegWord::Af => (RegByte::A, RegByte::F),
            RegWord::Bc => (RegByte::B, RegByte::C),
            RegWord::De => (RegByte::D, RegByte::E),
            RegWord::Hl => (RegByte::H, RegByte::L),
        }
    }
}

/// The two registers of a pair, high register first.
pub type RegisterPair = (RegByte, RegByte);

impl vstd::std_specs::convert::FromSpecImpl<RegWord> for RegisterPair {
    open spec fn obeys_from_spec() -> bool {
        true
    }

    open spec fn from_spec(dest: RegWord) -> RegisterPair {
        (dest.high(), dest.low())
    }
}

impl From<RegWord> for RegisterPair {
    fn from(dest: RegWord) -> (pair: RegisterPair) {
        dest.halves()
    }
}

/// The word made of a high and a low byte.
pub open spec fn word_of(high: u8, low: u8) -> u16 {
    (high * 256 + low) as u16
}

/// The high byte of a word.
pub open spec fn high_byte_of(word: u16) -> u8 {
    (word / 256) as u8
}

/// The low byte of a word.
pub open spec fn low_byte_of(word: u16) -> u8 {
    (word % 256) as u8
}

/// Joins a high and a low byte into a word.
pub fn make_word(high: u8, low: u8) -> (word: u16)
    ensures
        word == word_of(high, low),
{
    assert((high as u16) << 8 | low as u16 == high * 256 + low) by (bit_vector);
    (high as u16) << 8 | low as u16
}

/// The high byte of a word.
pub fn high_byte(word: u16) -> (byte: u8)
    ensures
        byte == high_byte_of(word),
{
    assert(word >> 8 == word / 256) by (bit_vector);
    (word >> 8) as u8
}

/// The low byte of a word.
pub fn low_byte(word: u16) -> (byte: u8)
    ensures
        byte == low_byte_of(word),
{
    assert(word & 0xFF == word % 256) by (bit_vector);
    (word & 0xFF) as u8
}

/// The register file: eight 8-bit registers.
pub struct Registers {
    pub a: u8,
    pub f: u8,
    pub b: u8,
    pub c: u8,
    pub d: u8,
    pub e: u8,
    pub h: u8,
    pub l: u8,
}

impl Registers {
    /// The byte in a register.
    pub open spec fn get8(self, dest: RegByte) -> u8 {
        match dest {
            RegByte::A => self.a,
            RegByte::F => self.f,
            RegByte::B => self.b,
            RegByte::C => self.c,
            RegByte::D => self.d,
            RegByte::E => self.e,
            RegByte::H => self.h,
            RegByte::L => self.l,
        }
    }

    /// The register file with `value` in one register and the others as they were.
    pub open spec fn with8(self, dest: RegByte, value: u8) -> Registers {
        match dest {
            RegByte::A => Registers { a: value, ..self },
            RegByte::F => Registers { f: value, ..self },
            RegByte::B => Registers { b: value, ..self },
            RegByte::C => Registers { c: value, ..self },
            RegByte::D => Registers { d: value, ..self },
            RegByte::E => Registers { e: value, ..self },
            RegByte::H => Registers { h: value, ..self },
            RegByte::L => Registers { l: value, ..self },
        }
    }

    /// The word in a pair: its high register above its low register.
    pub open spec fn get16(self, dest: RegWord) -> u16 {
        word_of(self.get8(dest.high()), self.get8(dest.low()))
    }

    /// The register file with `value` in one pair and the others as they were.
    pub open spec fn with16(self, dest: RegWord, value: u16) -> Registers {
        self.with8(dest.high(), high_byte_of(value)).with8(dest.low(), low_byte_of(value))
    }

    /// The register file at power-up: 0x01 in A, zero elsewhere.
    pub open spec fn boot() -> Registers {
        Registers { a: 0x01, f: 0x00, b: 0x00, c: 0x00, d: 0x00, e: 0x00, h: 0x00, l: 0x00 }
    }

    pub fn new() -> (regs: Registers)
        ensures
            regs == Registers::boot(),
    {
        Registers { a: 0x01, f: 0x00, b: 0x00, c: 0x00, d: 0x00, e: 0x00, h: 0x00, l: 0x00 }
    }

    pub fn read_value16_from(&self, dest: RegWord) -> (value: u16)
        ensures
            value == self.get16(dest),
    {
        let pair: RegisterPair = dest.halves();
        let hi_byte = self.read_value8_from(pair.0);
        let lo_byte = self.read_value8_from(pair.1);
        make_word(hi_byte, lo_byte)
    }

    pub fn read_value8_from(&self, dest: RegByte) -> (value: u8)
        ensures
            value == self.get8(dest),
    {
        match dest {
            RegByte::A => self.a,
            RegByte::F => self.f,
            RegByte::B => self.b,
            RegByte::C => self.c,
            RegByte::D => self.d,
            RegByte::E => self.e,
            RegByte::H => self.h,
            RegByte::L => self.l,
        }
    }

    pub fn write_value16_to(&mut self, dest: RegWord, value: u16)
        ensures
            *final(self) == old(self).with16(dest, value),
    {
        let pair: RegisterPair = dest.halves();
        self.write_value8_to(pair.0, high_byte(value));
        self.write_value8_to(pair.1, low_byte(value));
    }

    pub fn write_value8_to(&mut self, dest: RegByte, value: u8)
        ensures
            *final(self) == old(self).with8(dest, value),
    {
        match dest {
            RegByte::A => self.a = value,
            RegByte::F => self.f = value,
            RegByte::B => self.b = value,
            RegByte::C => self.c = value,
            RegByte::D => self.d = value,
            RegByte::E => self.e = value,
            RegByte::H => self.h = value,
            RegByte::L => self.l = value,
        }
    }

    /// A pair that was written holds the word that was written, and every other
    /// pair holds what it held before.
    pub proof fn lemma_read_after_write16(self, dest: RegWord, value: u16, other: RegWord)
        ensures
            self.with16(dest, value).get16(dest) == value,
            other != dest ==> self.with16(dest, value).get16(other) == self.get16(other),
    {
    }

    /// A register that was written holds the byte that was written, and every
    /// other register holds what it held before.
    pub proof fn lemma_read_after_write8(self, dest: RegByte, value: u8, other: RegByte)
        ensures
            self.with8(dest, value).get8(dest) == value,
            other != dest ==> self.with8(dest, value).get8(other) == self.get8(other),
    {
    }
}

} // verus!
