//! Instructions as text: what the bytes at an address stand for, for display.
//!
//! The disassembler reads the same opcode tables as the processor, so it shows
//! each instruction with the operands and the size that the processor gives it.

use crate::cpu::opcode::decode_prefixed;
use crate::cpu::opcode::operand_at;
use crate::cpu::opcode::reg16_at;
use crate::cpu::opcode::stack_pair_at;
use crate::cpu::opcode::decode_primary;
use crate::cpu::opcode::lemma_entries_well_formed;
use crate::cpu::opcode::prefixed_entry;
use crate::cpu::opcode::primary_entry;
use crate::cpu::opcode::AluOp;
use crate::cpu::opcode::Condition;
use crate::cpu::opcode::Operand8;
use crate::cpu::opcode::Operation;
use crate::cpu::opcode::Reg16;
use crate::cpu::opcode::ShiftOp;
use crate::cpu::opcode::PREFIX;
use crate::cpu::register::make_word;
use crate::cpu::register::word_of;
use crate::cpu::register::RegByte;
use crate::cpu::register::RegWord;
use crate::text::decimal_text;
use crate::text::hex_byte_text;
use crate::text::hex_word_text;
use crate::text::push_decimal;
use crate::text::push_hex_byte;
use crate::text::push_hex_word;
use vstd::prelude::*;
use vstd::string::StringExecFns;

verus! {

/// One instruction as the disassembler shows it.
#[derive(Copy, Clone, PartialEq, Eq, Debug, Structural)]
pub struct AssemblyDesc {
    /// The address of the instruction.
    pub offset: u16,
    pub opcode: Opcode,
    pub dest: Argument,
    pub src: Argument,
    /// The size of the instruction in bytes.
    pub size: u8,
}

/// The mnemonics.
#[derive(Copy, Clone, PartialEq, Eq, Debug, Structural)]
pub enum Opcode {
    /// A byte that is no instruction.
    Byte,
    Load,
    Add,
    Adc,
    Sub,
    Sbc,
    Inc,
    Dec,
    Push,
    Pop,
    And,
    Xor,
    Or,
    Cp,
    Rlca,
    Rrca,
    Rla,
    Rra,
    Nop,
    Stop,
    Jr,
    Jp,
    Call,
    Ret,
    Rst,
    Ei,
    Di,
    Reti,
    Daa,
    Scf,
    Cpl,
    Ccf,
    Halt,
    Rlc,
    Rrc,
    Rl,
    Rr,
    Sla,
    Sra,
    Swap,
    Srl,
    Bit,
    Res,
    SetBit,
}

/// An operand as the disassembler shows it.
#[derive(Copy, Clone, PartialEq, Eq, Debug, Structural)]
pub enum Argument {
    Unused,
    Data16(u16),
    Data8(u8),
    Address(u16),
    /// An address in the page at 0xFF00.
    Offset(u8),
    /// A signed offset from SP.
    SOffset(i8),
    Bit(u8),
    R(Register),
    IndexedBy(Register),
    IncRegister(Register),
    DecRegister(Register),
    Condition(Flag),
}

/// The registers by name.
#[derive(Copy, Clone, PartialEq, Eq, Debug, Structural)]
pub enum Register {
    Af,
    Bc,
    De,
    Hl,
    Sp,
    A,
    F,
    B,
    C,
    D,
    E,
    H,
    L,
}

/// The condition of a jump, call or return.
#[derive(Copy, Clone, PartialEq, Eq, Debug, Structural)]
pub enum Flag {
    /// No condition: the instruction is always taken.
    Always,
    NotZero,
    Zero,
    NotCarry,
    Carry,
}

impl Opcode {
    /// The mnemonic as text.
    pub open spec fn name(self) -> Seq<char> {
        match self {
            Opcode::Byte => ".byte"@,
            Opcode::Load => "ld"@,
            Opcode::Add => "add"@,
            Opcode::Adc => "adc"@,
            Opcode::Sub => "sub"@,
            Opcode::Sbc => "sbc"@,
            Opcode::Inc => "inc"@,
            Opcode::Dec => "dec"@,
            Opcode::Push => "push"@,
            Opcode::Pop => "pop"@,
            Opcode::And => "and"@,
            Opcode::Xor => "xor"@,
            Opcode::Or => "or"@,
            Opcode::Cp => "cp"@,
            Opcode::Rlca => "rlca"@,
            Opcode::Rrca => "rrca"@,
            Opcode::Rla => "rla"@,
            Opcode::Rra => "rra"@,
            Opcode::Nop => "nop"@,
            Opcode::Stop => "stop"@,
            Opcode::Jr => "jr"@,
            Opcode::Jp => "jp"@,
            Opcode::Call => "call"@,
            Opcode::Ret => "ret"@,
            Opcode::Rst => "rst"@,
            Opcode::Ei => "ei"@,
            Opcode::Di => "di"@,
            Opcode::Reti => "reti"@,
            Opcode::Daa => "daa"@,
            Opcode::Scf => "scf"@,
            Opcode::Cpl => "cpl"@,
            Opcode::Ccf => "ccf"@,
            Opcode::Halt => "halt"@,
            Opcode::Rlc => "rlc"@,
            Opcode::Rrc => "rrc"@,
            Opcode::Rl => "rl"@,
            Opcode::Rr => "rr"@,
            Opcode::Sla => "sla"@,
            Opcode::Sra => "sra"@,
            Opcode::Swap => "swap"@,
            Opcode::Srl => "srl"@,
            Opcode::Bit => "bit"@,
            Opcode::Res => "res"@,
            Opcode::SetBit => "set"@,
        }
    }

    /// The mnemonic as text.
    pub fn mnemonic(&self) -> (text: &'static str)
        ensures
            text@ == self.name(),
    {
        match self {
            Opcode::Byte => ".byte",
            Opcode::Load => "ld",
            Opcode::Add => "add",
            Opcode::Adc => "adc",
            Opcode::Sub => "sub",
            Opcode::Sbc => "sbc",
            Opcode::Inc => "inc",
            Opcode::Dec => "dec",
            Opcode::Push => "push",
            Opcode::Pop => "pop",
            Opcode::And => "and",
            Opcode::Xor => "xor",
            Opcode::Or => "or",
            Opcode::Cp => "cp",
            Opcode::Rlca => "rlca",
            Opcode::Rrca => "rrca",
            Opcode::Rla => "rla",
            Opcode::Rra => "rra",
            Opcode::Nop => "nop",
            Opcode::Stop => "stop",
            Opcode::Jr => "jr",
            Opcode::Jp => "jp",
            Opcode::Call => "call",
            Opcode::Ret => "ret",
            Opcode::Rst => "rst",
            Opcode::Ei => "ei",
            Opcode::Di => "di",
            Opcode::Reti => "reti",
            Opcode::Daa => "daa",
            Opcode::Scf => "scf",
            Opcode::Cpl => "cpl",
            Opcode::Ccf => "ccf",
            Opcode::Halt => "halt",
            Opcode::Rlc => "rlc",
            Opcode::Rrc => "rrc",
            Opcode::Rl => "rl",
            Opcode::Rr => "rr",
            Opcode::Sla => "sla",
            Opcode::Sra => "sra",
            Opcode::Swap => "swap",
            Opcode::Srl => "srl",
            Opcode::Bit => "bit",
            Opcode::Res => "res",
            Opcode::SetBit => "set",
        }
    }
}

impl Register {
    /// The name of the register as text.
    pub open spec fn name(self) -> Seq<char> {
        match self {
            Register::Af => "af"@,
            Register::Bc => "bc"@,
            Register::De => "de"@,
            Register::Hl => "hl"@,
            Register::Sp => "sp"@,
            Register::A => "a"@,
            Register::F => "f"@,
            Register::B => "b"@,
            Register::C => "c"@,
            Register::D => "d"@,
            Register::E => "e"@,
            Register::H => "h"@,
            Register::L => "l"@,
        }
    }

    /// The name of the register as text.
    pub fn to_text(&self) -> (text: &'static str)
        ensures
            text@ == self.name(),
    {
        match self {
            Register::Af => "af",
            Register::Bc => "bc",
            Register::De => "de",
            Register::Hl => "hl",
            Register::Sp => "sp",
            Register::A => "a",
            Register::F => "f",
            Register::B => "b",
            Register::C => "c",
            Register::D => "d",
            Register::E => "e",
            Register::H => "h",
            Register::L => "l",
        }
    }
}

impl Flag {
    /// The condition as text; nothing for an instruction that is always taken.
    pub open spec fn name(self) -> Seq<char> {
        match self {
            Flag::Always => ""@,
            Flag::NotZero => "nz"@,
            Flag::Zero => "z"@,
            Flag::NotCarry => "nc"@,
            Flag::Carry => "c"@,
        }
    }

    /// The condition as text.
    pub fn to_text(&self) -> (text: &'static str)
        ensures
            text@ == self.name(),
    {
        match self {
            Flag::Always => "",
            Flag::NotZero => "nz",
            Flag::Zero => "z",
            Flag::NotCarry => "nc",
            Flag::Carry => "c",
        }
    }
}

impl Flag {
    /// The condition that the bits of an opcode select. An opcode that carries
    /// no condition gives `Always`: one whose low three bits are 3 or 5, the
    /// plain relative jump 0x18 and the plain return 0xC9, and every opcode of
    /// the upper three quarters of the table whose bits 5-3 are above 3.
    pub open spec fn of_opcode(opcode: u8) -> Flag {
        let y = opcode / 8 % 8;
        let z = opcode % 8;
        let x = opcode / 64;
        let p = opcode / 16 % 4;
        let selector = if x == 0 && y >= 4 {
            y - 4
        } else {
            y as int
        };
        if z == 5 || z == 3 || (x == 0 && z == 0 && y == 3) || (x == 3 && z == 1 && p == 0) {
            Flag::Always
        } else if selector == 0 {
            Flag::NotZero
        } else if selector == 1 {
            Flag::Zero
        } else if selector == 2 {
            Flag::NotCarry
        } else if selector == 3 {
            Flag::Carry
        } else {
            Flag::Always
        }
    }

    /// The condition that the bits of an opcode select.
    pub fn decode_conditional(opcode: u8) -> (flag: Flag)
        ensures
            flag == Flag::of_opcode(opcode),
    {
        let mut y = opcode / 8 % 8;
        let z = opcode % 8;
        let x = opcode / 64;
        let p = opcode / 16 % 4;
        if z == 0x05 || z == 0x03 || (x == 0x00 && z == 0x00 && y == 0x03) || (x == 0x03 && z
            == 0x01 && p == 0x00) {
            return Flag::Always;
        }
        if x == 0x00 && (y >= 4 && y <= 7) {
            y = y - 4;
        }
        match y {
            0 => Flag::NotZero,
            1 => Flag::Zero,
            2 => Flag::NotCarry,
            3 => Flag::Carry,
            _ => Flag::Always,
        }
    }

    /// The condition of an operation of the processor as the disassembler shows it.
    pub open spec fn of_condition(condition: Condition) -> Flag {
        match condition {
            Condition::Always => Flag::Always,
            Condition::NotZero => Flag::NotZero,
            Condition::Zero => Flag::Zero,
            Condition::NotCarry => Flag::NotCarry,
            Condition::Carry => Flag::Carry,
        }
    }

    /// The condition of an operation of the processor as the disassembler shows it.
    pub fn from_condition(condition: Condition) -> (flag: Flag)
        ensures
            flag == Flag::of_condition(condition),
    {
        match condition {
            Condition::Always => Flag::Always,
            Condition::NotZero => Flag::NotZero,
            Condition::Zero => Flag::Zero,
            Condition::NotCarry => Flag::NotCarry,
            Condition::Carry => Flag::Carry,
        }
    }

    /// For every jump, call and return of the primary table, the condition
    /// that the bits of the opcode select is the one that the processor tests.
    pub proof fn lemma_conditions_agree(opcode: u8)
        ensures
            primary_entry(opcode) matches Some(Operation::JumpRelative(condition))
                ==> Flag::of_opcode(opcode) == Flag::of_condition(condition),
            primary_entry(opcode) matches Some(Operation::Jump(condition)) ==> Flag::of_opcode(
                opcode,
            ) == Flag::of_condition(condition),
            primary_entry(opcode) matches Some(Operation::Call(condition)) ==> Flag::of_opcode(
                opcode,
            ) == Flag::of_condition(condition),
            primary_entry(opcode) matches Some(Operation::Return(condition)) ==> Flag::of_opcode(
                opcode,
            ) == Flag::of_condition(condition),
    {
    }
}

impl Register {
    /// An 8-bit register of the processor by name.
    pub open spec fn of_byte(reg: RegByte) -> Register {
        match reg {
            RegByte::A => Register::A,
            RegByte::F => Register::F,
            RegByte::B => Register::B,
            RegByte::C => Register::C,
            RegByte::D => Register::D,
            RegByte::E => Register::E,
            RegByte::H => Register::H,
            RegByte::L => Register::L,
        }
    }

    /// A register pair of the processor by name.
    pub open spec fn of_pair(pair: RegWord) -> Register {
        match pair {
            RegWord::Af => Register::Af,
            RegWord::Bc => Register::Bc,
            RegWord::De => Register::De,
            RegWord::Hl => Register::Hl,
        }
    }

    /// A 16-bit register of the processor by name.
    pub open spec fn of_wide(reg: Reg16) -> Register {
        match reg {
            Reg16::Pair(pair) => Register::of_pair(pair),
            Reg16::Sp => Register::Sp,
        }
    }

    /// An 8-bit register of the processor by name.
    pub fn from_byte(reg: RegByte) -> (register: Register)
        ensures
            register == Register::of_byte(reg),
    {
        match reg {
            RegByte::A => Register::A,
            RegByte::F => Register::F,
            RegByte::B => Register::B,
            RegByte::C => Register::C,
            RegByte::D => Register::D,
            RegByte::E => Register::E,
            RegByte::H => Register::H,
            RegByte::L => Register::L,
        }
    }

    /// A register pair of the processor by name.
    pub fn from_pair(pair: RegWord) -> (register: Register)
        ensures
            register == Register::of_pair(pair),
    {
        match pair {
            RegWord::Af => Register::Af,
            RegWord::Bc => Register::Bc,
            RegWord::De => Register::De,
            RegWord::Hl => Register::Hl,
        }
    }

    /// A 16-bit register of the processor by name.
    pub fn from_wide(reg: Reg16) -> (register: Register)
        ensures
            register == Register::of_wide(reg),
    {
        match reg {
            Reg16::Pair(pair) => Register::from_pair(pair),
            Reg16::Sp => Register::Sp,
        }
    }
}

impl Register {
    /// The register that an operand of the processor is or, for the byte at
    /// the address in a register pair, the pair.
    pub open spec fn of_operand(operand: Operand8) -> Register {
        match operand {
            Operand8::Reg(reg) => Register::of_byte(reg),
            Operand8::Indirect(pair) => Register::of_pair(pair),
            _ => Register::Hl,
        }
    }

    /// The register that bits 2-0 of an opcode select: B, C, D, E, H, L, HL
    /// for the byte at the address in HL, A.
    pub open spec fn source_of(opcode: u8) -> Register {
        Register::of_operand(operand_at((opcode % 8) as int))
    }

    /// The register that bits 5-3 of an opcode select, in the same order.
    pub open spec fn destination_of(opcode: u8) -> Register {
        Register::of_operand(operand_at((opcode / 8 % 8) as int))
    }

    /// The 16-bit register that bits 5-4 of an opcode select: BC, DE, HL and,
    /// in the last quarter of the table, AF, else SP.
    pub open spec fn wide_of(opcode: u8) -> Register {
        if opcode / 64 == 3 {
            Register::of_pair(stack_pair_at((opcode / 16 % 4) as int))
        } else {
            Register::of_wide(reg16_at((opcode / 16 % 4) as int))
        }
    }

    /// The 16-bit register that bits 5-4 of an opcode select.
    pub fn decode_16bit_register(opcode: u8) -> (register: Register)
        ensures
            register == Register::wide_of(opcode),
    {
        let dest_bits = opcode / 16 % 4;
        let reg_group = opcode / 64;
        match dest_bits {
            0 => Register::Bc,
            1 => Register::De,
            2 => Register::Hl,
            _ => if reg_group == 0x03 {
                Register::Af
            } else {
                Register::Sp
            },
        }
    }

    /// The register that bits 5-3 of an opcode select.
    pub fn decode_8bit_dest_register(opcode: u8) -> (register: Register)
        ensures
            register == Register::destination_of(opcode),
    {
        Register::decode_8bit_src_register(opcode / 8)
    }

    /// The register that bits 2-0 of an opcode select.
    pub fn decode_8bit_src_register(opcode: u8) -> (register: Register)
        ensures
            register == Register::source_of(opcode),
    {
        let src_bits = opcode % 8;
        match src_bits {
            0 => Register::B,
            1 => Register::C,
            2 => Register::D,
            3 => Register::E,
            4 => Register::H,
            5 => Register::L,
            6 => Register::Hl,
            _ => Register::A,
        }
    }
}

/// The byte that a signed byte is stored as.
pub open spec fn stored_byte(value: i8) -> u8 {
    if value < 0 {
        (value + 256) as u8
    } else {
        value as u8
    }
}

/// The signed byte that a byte stands for.
pub open spec fn signed_byte(value: u8) -> i8 {
    if value < 128 {
        value as i8
    } else {
        (value - 256) as i8
    }
}

impl Argument {
    /// The operand of an instruction as the disassembler shows it, given the
    /// two bytes that follow the opcode.
    pub open spec fn of_operand(operand: Operand8, arg_lo: u8, arg_hi: u8) -> Argument {
        match operand {
            Operand8::Reg(reg) => Argument::R(Register::of_byte(reg)),
            Operand8::Indirect(pair) => Argument::IndexedBy(Register::of_pair(pair)),
            Operand8::IndirectInc => Argument::IncRegister(Register::Hl),
            Operand8::IndirectDec => Argument::DecRegister(Register::Hl),
            Operand8::Immediate => Argument::Data8(arg_lo),
            Operand8::Direct => Argument::Address(word_of(arg_hi, arg_lo)),
            Operand8::HighImmediate => Argument::Offset(arg_lo),
            Operand8::HighC => Argument::IndexedBy(Register::C),
        }
    }

    /// The operand of an instruction as the disassembler shows it.
    pub fn from_operand(operand: Operand8, arg_lo: u8, arg_hi: u8) -> (argument: Argument)
        ensures
            argument == Argument::of_operand(operand, arg_lo, arg_hi),
    {
        match operand {
            Operand8::Reg(reg) => Argument::R(Register::from_byte(reg)),
            Operand8::Indirect(pair) => Argument::IndexedBy(Register::from_pair(pair)),
            Operand8::IndirectInc => Argument::IncRegister(Register::Hl),
            Operand8::IndirectDec => Argument::DecRegister(Register::Hl),
            Operand8::Immediate => Argument::Data8(arg_lo),
            Operand8::Direct => Argument::Address(make_word(arg_hi, arg_lo)),
            Operand8::HighImmediate => Argument::Offset(arg_lo),
            Operand8::HighC => Argument::IndexedBy(Register::C),
        }
    }

    /// The condition of an instruction as the disassembler shows it: nothing
    /// for an instruction that is always taken.
    pub open spec fn of_condition(condition: Condition) -> Argument {
        if condition == Condition::Always {
            Argument::Unused
        } else {
            Argument::Condition(Flag::of_condition(condition))
        }
    }

    /// The condition of an instruction as the disassembler shows it.
    pub fn from_condition(condition: Condition) -> (argument: Argument)
        ensures
            argument == Argument::of_condition(condition),
    {
        match condition {
            Condition::Always => Argument::Unused,
            _ => Argument::Condition(Flag::from_condition(condition)),
        }
    }

    /// The operand as text: data after `$`, addresses in brackets, registers
    /// by name, and a blank for no operand.
    pub open spec fn text(self) -> Seq<char> {
        match self {
            Argument::Unused => " "@,
            Argument::Data16(value) => "$"@ + hex_word_text(value),
            Argument::Data8(value) => "$"@ + hex_byte_text(value),
            Argument::Address(value) => "($"@ + hex_word_text(value) + ")"@,
            Argument::Offset(value) => "($"@ + hex_word_text((0xFF00 + value) as u16) + ")"@,
            Argument::SOffset(value) => "SP + "@ + hex_byte_text(stored_byte(value)),
            Argument::Bit(index) => decimal_text(index),
            Argument::R(register) => register.name(),
            Argument::IndexedBy(register) => "("@ + register.name() + ")"@,
            Argument::IncRegister(register) => "("@ + register.name() + "+)"@,
            Argument::DecRegister(register) => "("@ + register.name() + "-)"@,
            Argument::Condition(flag) => flag.name(),
        }
    }

    /// The operand as text.
    pub fn to_text(&self) -> (text: String)
        ensures
            text@ == self.text(),
    {
        let mut text = String::new();
        match self {
            Argument::Unused => {
                text.append(" ");
            },
            Argument::Data16(value) => {
                text.append("$");
                push_hex_word(&mut text, *value);
            },
            Argument::Data8(value) => {
                text.append("$");
                push_hex_byte(&mut text, *value);
            },
            Argument::Address(value) => {
                text.append("($");
                push_hex_word(&mut text, *value);
                text.append(")");
            },
            Argument::Offset(value) => {
                text.append("($");
                push_hex_word(&mut text, 0xFF00 + *value as u16);
                text.append(")");
            },
            Argument::SOffset(value) => {
                let stored: u8 = if *value < 0 {
                    (*value as i16 + 256) as u8
                } else {
                    *value as u8
                };
                text.append("SP + ");
                push_hex_byte(&mut text, stored);
            },
            Argument::Bit(index) => {
                push_decimal(&mut text, *index);
            },
            Argument::R(register) => {
                text.append(register.to_text());
            },
            Argument::IndexedBy(register) => {
                text.append("(");
                text.append(register.to_text());
                text.append(")");
            },
            Argument::IncRegister(register) => {
                text.append("(");
                text.append(register.to_text());
                text.append("+)");
            },
            Argument::DecRegister(register) => {
                text.append("(");
                text.append(register.to_text());
                text.append("-)");
            },
            Argument::Condition(flag) => {
                text.append(flag.to_text());
            },
        }
        assert(text@ =~= self.text());
        text
    }
}

impl Opcode {
    /// The mnemonic of an operation on the accumulator.
    pub open spec fn of_alu(op: AluOp) -> Opcode {
        match op {
            AluOp::Add => Opcode::Add,
            AluOp::Adc => Opcode::Adc,
            AluOp::Sub => Opcode::Sub,
            AluOp::Sbc => Opcode::Sbc,
            AluOp::And => Opcode::And,
            AluOp::Xor => Opcode::Xor,
            AluOp::Or => Opcode::Or,
            AluOp::Cp => Opcode::Cp,
        }
    }

    /// The mnemonic of a rotation or shift of the prefixed table.
    pub open spec fn of_shift(op: ShiftOp) -> Opcode {
        match op {
            ShiftOp::Rlc => Opcode::Rlc,
            ShiftOp::Rrc => Opcode::Rrc,
            ShiftOp::Rl => Opcode::Rl,
            ShiftOp::Rr => Opcode::Rr,
            ShiftOp::Sla => Opcode::Sla,
            ShiftOp::Sra => Opcode::Sra,
            ShiftOp::Swap => Opcode::Swap,
            ShiftOp::Srl => Opcode::Srl,
        }
    }

    /// The mnemonic of an operation on the accumulator.
    pub fn from_alu(op: AluOp) -> (opcode: Opcode)
        ensures
            opcode == Opcode::of_alu(op),
    {
        match op {
            AluOp::Add => Opcode::Add,
            AluOp::Adc => Opcode::Adc,
            AluOp::Sub => Opcode::Sub,
            AluOp::Sbc => Opcode::Sbc,
            AluOp::And => Opcode::And,
            AluOp::Xor => Opcode::Xor,
            AluOp::Or => Opcode::Or,
            AluOp::Cp => Opcode::Cp,
        }
    }

    /// The mnemonic of a rotation or shift of the prefixed table.
    pub fn from_shift(op: ShiftOp) -> (opcode: Opcode)
        ensures
            opcode == Opcode::of_shift(op),
    {
        match op {
            ShiftOp::Rlc => Opcode::Rlc,
            ShiftOp::Rrc => Opcode::Rrc,
            ShiftOp::Rl => Opcode::Rl,
            ShiftOp::Rr => Opcode::Rr,
            ShiftOp::Sla => Opcode::Sla,
            ShiftOp::Sra => Opcode::Sra,
            ShiftOp::Swap => Opcode::Swap,
            ShiftOp::Srl => Opcode::Srl,
        }
    }
}

/// Mnemonic, destination and source of an instruction.
pub struct Shape {
    pub opcode: Opcode,
    pub dest: Argument,
    pub src: Argument,
}

impl Shape {
    /// An instruction without operands.
    pub open spec fn bare(opcode: Opcode) -> Shape {
        Shape { opcode, dest: Argument::Unused, src: Argument::Unused }
    }

    /// How an operation of the processor is shown, given the two bytes that
    /// follow the opcode. An addition to the accumulator names it; the other
    /// operations on the accumulator show only their operand.
    pub open spec fn of(operation: Operation, arg_lo: u8, arg_hi: u8) -> Shape {
        let word = word_of(arg_hi, arg_lo);
        let a = Argument::R(Register::A);
        match operation {
            Operation::Nop => Shape::bare(Opcode::Nop),
            Operation::Stop => Shape::bare(Opcode::Stop),
            Operation::Halt => Shape::bare(Opcode::Halt),
            Operation::DisableInterrupts => Shape::bare(Opcode::Di),
            Operation::EnableInterrupts => Shape::bare(Opcode::Ei),
            Operation::Load8(dst, src) => Shape {
                opcode: Opcode::Load,
                dest: Argument::of_operand(dst, arg_lo, arg_hi),
                src: Argument::of_operand(src, arg_lo, arg_hi),
            },
            Operation::Load16(reg) => Shape {
                opcode: Opcode::Load,
                dest: Argument::R(Register::of_wide(reg)),
                src: Argument::Data16(word),
            },
            Operation::StoreSp => Shape {
                opcode: Opcode::Load,
                dest: Argument::Address(word),
                src: Argument::R(Register::Sp),
            },
            Operation::LoadSpHl => Shape {
                opcode: Opcode::Load,
                dest: Argument::R(Register::Sp),
                src: Argument::R(Register::Hl),
            },
            Operation::LoadHlSpOffset => Shape {
                opcode: Opcode::Load,
                dest: Argument::R(Register::Hl),
                src: Argument::SOffset(signed_byte(arg_lo)),
            },
            Operation::AddSpOffset => Shape {
                opcode: Opcode::Add,
                dest: Argument::R(Register::Sp),
                src: Argument::Data8(arg_lo),
            },
            Operation::Inc8(operand) => Shape {
                opcode: Opcode::Inc,
                dest: Argument::of_operand(operand, arg_lo, arg_hi),
                src: Argument::Unused,
            },
            Operation::Dec8(operand) => Shape {
                opcode: Opcode::Dec,
                dest: Argument::of_operand(operand, arg_lo, arg_hi),
                src: Argument::Unused,
            },
            Operation::Inc16(reg) => Shape {
                opcode: Opcode::Inc,
                dest: Argument::R(Register::of_wide(reg)),
                src: Argument::Unused,
            },
            Operation::Dec16(reg) => Shape {
                opcode: Opcode::Dec,
                dest: Argument::R(Register::of_wide(reg)),
                src: Argument::Unused,
            },
            Operation::AddHl(reg) => Shape {
                opcode: Opcode::Add,
                dest: Argument::R(Register::Hl),
                src: Argument::R(Register::of_wide(reg)),
            },
            Operation::Alu(op, operand) => Shape {
                opcode: Opcode::of_alu(op),
                dest: if op == AluOp::Add || op == AluOp::Adc || op == AluOp::Sbc {
                    a
                } else {
                    Argument::Unused
                },
                src: Argument::of_operand(operand, arg_lo, arg_hi),
            },
            Operation::Rlca => Shape::bare(Opcode::Rlca),
            Operation::Rrca => Shape::bare(Opcode::Rrca),
            Operation::Rla => Shape::bare(Opcode::Rla),
            Operation::Rra => Shape::bare(Opcode::Rra),
            Operation::Daa => Shape::bare(Opcode::Daa),
            Operation::Cpl => Shape::bare(Opcode::Cpl),
            Operation::Scf => Shape::bare(Opcode::Scf),
            Operation::Ccf => Shape::bare(Opcode::Ccf),
            Operation::JumpRelative(condition) => Shape {
                opcode: Opcode::Jr,
                dest: Argument::of_condition(condition),
                src: Argument::Data8(arg_lo),
            },
            Operation::Jump(condition) => Shape {
                opcode: Opcode::Jp,
                dest: Argument::of_condition(condition),
                src: Argument::Data16(word),
            },
            Operation::JumpHl => Shape {
                opcode: Opcode::Jp,
                dest: Argument::Unused,
                src: Argument::IndexedBy(Register::Hl),
            },
            Operation::Call(condition) => Shape {
                opcode: Opcode::Call,
                dest: Argument::of_condition(condition),
                src: Argument::Data16(word),
            },
            Operation::Return(condition) => Shape {
                opcode: Opcode::Ret,
                dest: Argument::of_condition(condition),
                src: Argument::Unused,
            },
            Operation::ReturnInterrupt => Shape::bare(Opcode::Reti),
            Operation::Restart(target) => Shape {
                opcode: Opcode::Rst,
                dest: Argument::Unused,
                src: Argument::Data8((target % 256) as u8),
            },
            Operation::Push(pair) => Shape {
                opcode: Opcode::Push,
                dest: Argument::Unused,
                src: Argument::R(Register::of_pair(pair)),
            },
            Operation::Pop(pair) => Shape {
                opcode: Opcode::Pop,
                dest: Argument::Unused,
                src: Argument::R(Register::of_pair(pair)),
            },
            Operation::Shift(op, operand) => Shape {
                opcode: Opcode::of_shift(op),
                dest: Argument::of_operand(operand, arg_lo, arg_hi),
                src: Argument::Unused,
            },
            Operation::TestBit(index, operand) => Shape {
                opcode: Opcode::Bit,
                dest: Argument::Bit(index),
                src: Argument::of_operand(operand, arg_lo, arg_hi),
            },
            Operation::ResetBit(index, operand) => Shape {
                opcode: Opcode::Res,
                dest: Argument::Bit(index),
                src: Argument::of_operand(operand, arg_lo, arg_hi),
            },
            Operation::SetBit(index, operand) => Shape {
                opcode: Opcode::SetBit,
                dest: Argument::Bit(index),
                src: Argument::of_operand(operand, arg_lo, arg_hi),
            },
        }
    }

    /// How an operation of the processor is shown.
    pub fn describe(operation: Operation, arg_lo: u8, arg_hi: u8) -> (shape: Shape)
        ensures
            shape == Shape::of(operation, arg_lo, arg_hi),
    {
        let word = make_word(arg_hi, arg_lo);
        let none = Argument::Unused;
        let (opcode, dest, src) = match operation {
            Operation::Nop => (Opcode::Nop, none, none),
            Operation::Stop => (Opcode::Stop, none, none),
            Operation::Halt => (Opcode::Halt, none, none),
            Operation::DisableInterrupts => (Opcode::Di, none, none),
            Operation::EnableInterrupts => (Opcode::Ei, none, none),
            Operation::Load8(dst, src) => (
                Opcode::Load,
                Argument::from_operand(dst, arg_lo, arg_hi),
                Argument::from_operand(src, arg_lo, arg_hi),
            ),
            Operation::Load16(reg) => (
                Opcode::Load,
                Argument::R(Register::from_wide(reg)),
                Argument::Data16(word),
            ),
            Operation::StoreSp => (Opcode::Load, Argument::Address(word), Argument::R(Register::Sp)),
            Operation::LoadSpHl => (
                Opcode::Load,
                Argument::R(Register::Sp),
                Argument::R(Register::Hl),
            ),
            Operation::LoadHlSpOffset => {
                let offset: i8 = if arg_lo < 128 {
                    arg_lo as i8
                } else {
                    (arg_lo as i16 - 256) as i8
                };
                (Opcode::Load, Argument::R(Register::Hl), Argument::SOffset(offset))
            },
            Operation::AddSpOffset => (
                Opcode::Add,
                Argument::R(Register::Sp),
                Argument::Data8(arg_lo),
            ),
            Operation::Inc8(operand) => (
                Opcode::Inc,
                Argument::from_operand(operand, arg_lo, arg_hi),
                none,
            ),
            Operation::Dec8(operand) => (
                Opcode::Dec,
                Argument::from_operand(operand, arg_lo, arg_hi),
                none,
            ),
            Operation::Inc16(reg) => (Opcode::Inc, Argument::R(Register::from_wide(reg)), none),
            Operation::Dec16(reg) => (Opcode::Dec, Argument::R(Register::from_wide(reg)), none),
            Operation::AddHl(reg) => (
                Opcode::Add,
                Argument::R(Register::Hl),
                Argument::R(Register::from_wide(reg)),
            ),
            Operation::Alu(op, operand) => {
                let dest = match op {
                    AluOp::Add | AluOp::Adc | AluOp::Sbc => Argument::R(Register::A),
                    _ => none,
                };
                (Opcode::from_alu(op), dest, Argument::from_operand(operand, arg_lo, arg_hi))
            },
            Operation::Rlca => (Opcode::Rlca, none, none),
            Operation::Rrca => (Opcode::Rrca, none, none),
            Operation::Rla => (Opcode::Rla, none, none),
            Operation::Rra => (Opcode::Rra, none, none),
            Operation::Daa => (Opcode::Daa, none, none),
            Operation::Cpl => (Opcode::Cpl, none, none),
            Operation::Scf => (Opcode::Scf, none, none),
            Operation::Ccf => (Opcode::Ccf, none, none),
            Operation::JumpRelative(condition) => (
                Opcode::Jr,
                Argument::from_condition(condition),
                Argument::Data8(arg_lo),
            ),
            Operation::Jump(condition) => (
                Opcode::Jp,
                Argument::from_condition(condition),
                Argument::Data16(word),
            ),
            Operation::JumpHl => (Opcode::Jp, none, Argument::IndexedBy(Register::Hl)),
            Operation::Call(condition) => (
                Opcode::Call,
                Argument::from_condition(condition),
                Argument::Data16(word),
            ),
            Operation::Return(condition) => (
                Opcode::Ret,
                Argument::from_condition(condition),
                none,
            ),
            Operation::ReturnInterrupt => (Opcode::Reti, none, none),
            Operation::Restart(target) => (
                Opcode::Rst,
                none,
                Argument::Data8((target % 256) as u8),
            ),
            Operation::Push(pair) => (Opcode::Push, none, Argument::R(Register::from_pair(pair))),
            Operation::Pop(pair) => (Opcode::Pop, none, Argument::R(Register::from_pair(pair))),
            Operation::Shift(op, operand) => (
                Opcode::from_shift(op),
                Argument::from_operand(operand, arg_lo, arg_hi),
                none,
            ),
            Operation::TestBit(index, operand) => (
                Opcode::Bit,
                Argument::Bit(index),
                Argument::from_operand(operand, arg_lo, arg_hi),
            ),
            Operation::ResetBit(index, operand) => (
                Opcode::Res,
                Argument::Bit(index),
                Argument::from_operand(operand, arg_lo, arg_hi),
            ),
            Operation::SetBit(index, operand) => (
                Opcode::SetBit,
                Argument::Bit(index),
                Argument::from_operand(operand, arg_lo, arg_hi),
            ),
        };
        Shape { opcode, dest, src }
    }
}

impl AssemblyDesc {
    /// The instruction that begins with `opcode` at `offset`, where the two
    /// bytes after it are `arg_lo` and `arg_hi`. After the prefix byte,
    /// `arg_lo` is the opcode of the prefixed table. A byte that is no opcode
    /// is shown as one byte of data.
    pub open spec fn of(offset: u16, opcode: u8, arg_lo: u8, arg_hi: u8) -> AssemblyDesc {
        if opcode == 0xCB {
            let shape = Shape::of(prefixed_entry(arg_lo), arg_hi, 0);
            AssemblyDesc { offset, opcode: shape.opcode, dest: shape.dest, src: shape.src, size: 2 }
        } else {
            match primary_entry(opcode) {
                Some(operation) => {
                    let shape = Shape::of(operation, arg_lo, arg_hi);
                    AssemblyDesc {
                        offset,
                        opcode: shape.opcode,
                        dest: shape.dest,
                        src: shape.src,
                        size: operation.size() as u8,
                    }
                },
                None => AssemblyDesc {
                    offset,
                    opcode: Opcode::Byte,
                    dest: Argument::Unused,
                    src: Argument::Data8(opcode),
                    size: 1,
                },
            }
        }
    }

    /// Disassembles the instruction that begins with `opcode` at `offset`.
    pub fn disassemble(offset: u16, opcode: u8, arg_lo: u8, arg_hi: u8) -> (desc: AssemblyDesc)
        ensures
            desc == AssemblyDesc::of(offset, opcode, arg_lo, arg_hi),
            1 <= desc.size <= 3,
    {
        proof {
            lemma_entries_well_formed(opcode, false);
        }
        if opcode != PREFIX {
            AssemblyDesc::opcode_table_no_prefix(offset, opcode, arg_lo, arg_hi)
        } else {
            AssemblyDesc::opcode_table_prefix(offset, arg_lo, arg_hi)
        }
    }

    fn opcode_table_prefix(offset: u16, opcode: u8, next: u8) -> (desc: AssemblyDesc)
        ensures
            desc == AssemblyDesc::of(offset, 0xCB, opcode, next),
    {
        let shape = Shape::describe(decode_prefixed(opcode), next, 0);
        AssemblyDesc { offset, opcode: shape.opcode, dest: shape.dest, src: shape.src, size: 2 }
    }

    fn opcode_table_no_prefix(offset: u16, opcode: u8, arg_lo: u8, arg_hi: u8) -> (desc:
        AssemblyDesc)
        requires
            opcode != 0xCB,
        ensures
            desc == AssemblyDesc::of(offset, opcode, arg_lo, arg_hi),
    {
        proof {
            lemma_entries_well_formed(opcode, false);
        }
        match decode_primary(opcode) {
            Some(operation) => {
                let shape = Shape::describe(operation, arg_lo, arg_hi);
                AssemblyDesc {
                    offset,
                    opcode: shape.opcode,
                    dest: shape.dest,
                    src: shape.src,
                    size: operation.length(),
                }
            },
            None => AssemblyDesc::data_byte(offset, opcode),
        }
    }

    /// A byte that is no instruction.
    fn data_byte(offset: u16, src: u8) -> (desc: AssemblyDesc)
        ensures
            desc == (AssemblyDesc {
                offset,
                opcode: Opcode::Byte,
                dest: Argument::Unused,
                src: Argument::Data8(src),
                size: 1,
            }),
    {
        AssemblyDesc {
            offset,
            opcode: Opcode::Byte,
            dest: Argument::Unused,
            src: Argument::Data8(src),
            size: 1,
        }
    }

    /// The instruction as one line of text: the mnemonic, the destination
    /// and, after a comma where there is a destination, the source.
    pub open spec fn text(self) -> Seq<char> {
        self.opcode.name() + " "@ + self.dest.text() + (if self.dest == Argument::Unused {
            ""@
        } else {
            ", "@
        }) + self.src.text() + "\n"@
    }

    /// The instruction as one line of text.
    pub fn to_text(&self) -> (text: String)
        ensures
            text@ == self.text(),
    {
        let mut text = String::new();
        text.append(self.opcode.mnemonic());
        text.append(" ");
        text.append(self.dest.to_text().as_str());
        let seperator = match self.dest {
            Argument::Unused => "",
            _ => ", ",
        };
        text.append(seperator);
        text.append(self.src.to_text().as_str());
        text.append("\n");
        assert(text@ =~= self.text());
        text
    }

    /// The address that a jump, call or restart leads to, if the instruction
    /// is one and names its target.
    pub open spec fn target(self) -> Option<u16> {
        match (self.opcode, self.src) {
            (Opcode::Jp, Argument::Data16(addr)) => Some(addr),
            (Opcode::Call, Argument::Data16(addr)) => Some(addr),
            (Opcode::Rst, Argument::Data8(addr)) => Some(addr as u16),
            (Opcode::Jr, Argument::Data8(offset)) => Some(
                crate::cpu::alu::wrap16(self.offset + 2 + crate::cpu::alu::signed8(offset)),
            ),
            _ => None,
        }
    }

    /// The address that a jump, call or restart leads to.
    pub fn follow(&self) -> (target: Option<u16>)
        ensures
            target == self.target(),
    {
        match (self.opcode, self.src) {
            (Opcode::Jp, Argument::Data16(addr)) => Some(addr),
            (Opcode::Call, Argument::Data16(addr)) => Some(addr),
            (Opcode::Rst, Argument::Data8(addr)) => Some(addr as u16),
            (Opcode::Jr, Argument::Data8(offset)) => {
                let signed: i16 = if offset < 128 {
                    offset as i16
                } else {
                    offset as i16 - 256
                };
                Some(self.offset.wrapping_add(2).wrapping_add_signed(signed))
            },
            _ => None,
        }
    }

    /// The disassembler gives every instruction the size that the processor
    /// gives it, and shows exactly the bytes that are no opcode as data.
    pub proof fn lemma_size_agrees(offset: u16, opcode: u8, arg_lo: u8, arg_hi: u8)
        ensures
            opcode != 0xCB ==> (primary_entry(opcode) matches Some(operation)
                ==> AssemblyDesc::of(offset, opcode, arg_lo, arg_hi).size == operation.size()),
            opcode == 0xCB ==> AssemblyDesc::of(offset, opcode, arg_lo, arg_hi).size
                == prefixed_entry(arg_lo).size(),
            AssemblyDesc::of(offset, opcode, arg_lo, arg_hi).opcode == Opcode::Byte <==> opcode
                != 0xCB && primary_entry(opcode) is None,
            AssemblyDesc::of(offset, opcode, arg_lo, arg_hi).offset == offset,
            1 <= AssemblyDesc::of(offset, opcode, arg_lo, arg_hi).size <= 3,
    {
        lemma_entries_well_formed(opcode, false);
        lemma_entries_well_formed(arg_lo, true);
    }
}

} // verus!
