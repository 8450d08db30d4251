//! The instruction set: what each opcode of the primary table and of the
//! prefixed table stands for.
//!
//! An opcode is read as three fields: `x` (bits 7-6), `y` (bits 5-3) and `z`
//! (bits 2-0). Registers, register pairs, conditions and arithmetic operations
//! are found by these fields in small tables.

use crate::cpu::register::RegByte;
use crate::cpu::register::RegWord;
use vstd::prelude::*;

verus! {

/// The byte that announces an opcode of the prefixed table.
pub const PREFIX: u8 = 0xCB;

/// Where an instruction finds or puts a byte.
#[derive(Copy, Clone, PartialEq, Eq, Debug, Structural)]
pub enum Operand8 {
    /// In a register.
    Reg(RegByte),
    /// In memory, at the address held in a register pair.
    Indirect(RegWord),
    /// In memory at the address held in HL, which is then incremented.
    IndirectInc,
    /// In memory at the address held in HL, which is then decremented.
    IndirectDec,
    /// In the byte that follows the opcode.
    Immediate,
    /// In memory, at the address in the two bytes that follow the opcode.
    Direct,
    /// In memory at 0xFF00 plus the byte that follows the opcode.
    HighImmediate,
    /// In memory at 0xFF00 plus the byte in register C.
    HighC,
}

/// A 16-bit register that instructions count and add with.
#[derive(Copy, Clone, PartialEq, Eq, Debug, Structural)]
pub enum Reg16 {
    Pair(RegWord),
    Sp,
}

/// When a jump, call or return is taken.
#[derive(Copy, Clone, PartialEq, Eq, Debug, Structural)]
pub enum Condition {
    Always,
    NotZero,
    Zero,
    NotCarry,
    Carry,
}

/// The eight operations on the accumulator and a byte.
#[derive(Copy, Clone, PartialEq, Eq, Debug, Structural)]
pub enum AluOp {
    Add,
    Adc,
    Sub,
    Sbc,
    And,
    Xor,
    Or,
    Cp,
}

/// The eight rotations and shifts of the prefixed table.
#[derive(Copy, Clone, PartialEq, Eq, Debug, Structural)]
pub enum ShiftOp {
    Rlc,
    Rrc,
    Rl,
    Rr,
    Sla,
    Sra,
    Swap,
    Srl,
}

/// What one instruction does, with its operands.
#[derive(Copy, Clone, PartialEq, Eq, Debug, Structural)]
pub enum Operation {
    Nop,
    Stop,
    Halt,
    DisableInterrupts,
    /// Turns interrupts on. They are on from the next step, with no delay of
    /// one instruction.
    EnableInterrupts,
    /// Copies a byte from the second operand to the first.
    Load8(Operand8, Operand8),
    /// Loads the word that follows the opcode.
    Load16(Reg16),
    /// Stores SP at the address that follows the opcode.
    StoreSp,
    /// Copies HL to SP.
    LoadSpHl,
    /// Loads HL with SP plus the signed byte that follows the opcode.
    LoadHlSpOffset,
    /// Adds the signed byte that follows the opcode to SP.
    AddSpOffset,
    Inc8(Operand8),
    Dec8(Operand8),
    Inc16(Reg16),
    Dec16(Reg16),
    /// Adds a 16-bit register to HL.
    AddHl(Reg16),
    /// An operation on the accumulator and the operand.
    Alu(AluOp, Operand8),
    Rlca,
    Rrca,
    Rla,
    Rra,
    Daa,
    Cpl,
    Scf,
    Ccf,
    /// Jumps by the signed byte that follows the opcode.
    JumpRelative(Condition),
    /// Jumps to the address that follows the opcode.
    Jump(Condition),
    /// Jumps to the address in HL.
    JumpHl,
    /// Calls the address that follows the opcode.
    Call(Condition),
    Return(Condition),
    /// Returns and enables interrupts.
    ReturnInterrupt,
    /// Calls a fixed address.
    Restart(u16),
    Push(RegWord),
    Pop(RegWord),
    /// A rotation or shift of the prefixed table.
    Shift(ShiftOp, Operand8),
    /// Tests one bit of the operand.
    TestBit(u8, Operand8),
    /// Clears one bit of the operand.
    ResetBit(u8, Operand8),
    /// Sets one bit of the operand.
    SetBit(u8, Operand8),
}

impl Operand8 {
    /// The bytes that follow the opcode for this operand.
    pub open spec fn extra_bytes(self) -> int {
        match self {
            Operand8::Immediate | Operand8::HighImmediate => 1,
            Operand8::Direct => 2,
            _ => 0,
        }
    }

    /// An operand that can be read: not the flag register.
    pub open spec fn readable(self) -> bool {
        self != Operand8::Reg(RegByte::F)
    }

    /// An operand that can be written: not the flag register, and not a byte of
    /// the instruction itself.
    pub open spec fn writable(self) -> bool {
        self != Operand8::Reg(RegByte::F) && self != Operand8::Immediate
    }

    /// An operand that can be read, changed and written back: a register other
    /// than the flag register, or the byte at the address in a register pair.
    pub open spec fn updatable(self) -> bool {
        match self {
            Operand8::Reg(reg) => reg != RegByte::F,
            Operand8::Indirect(_) => true,
            _ => false,
        }
    }
}

impl Operation {
    /// The operands fit the operation, none of them lets the flag register be
    /// written as an operand, and a bit index is below 8. Every entry of the
    /// two opcode tables is well formed.
    pub open spec fn wf(self) -> bool {
        match self {
            Operation::Load8(dst, src) => dst.writable() && src.readable() && (dst.extra_bytes()
                == 0 || src.extra_bytes() == 0),
            Operation::Inc8(operand) | Operation::Dec8(operand) => operand.updatable(),
            Operation::Load16(reg) | Operation::Inc16(reg) | Operation::Dec16(reg) => reg
                != Reg16::Pair(RegWord::Af),
            Operation::Alu(_, operand) => operand.readable(),
            Operation::Shift(_, operand) => operand.updatable(),
            Operation::TestBit(index, operand) => index < 8 && operand.updatable(),
            Operation::ResetBit(index, operand) => index < 8 && operand.updatable(),
            Operation::SetBit(index, operand) => index < 8 && operand.updatable(),
            _ => true,
        }
    }

    /// The bit index of a bit operation that is out of range, if there is one.
    pub open spec fn invalid_bit_index(self) -> Option<u8> {
        match self {
            Operation::TestBit(index, _) | Operation::ResetBit(index, _) | Operation::SetBit(
                index,
                _,
            ) => if index >= 8 {
                Some(index)
            } else {
                None
            },
            _ => None,
        }
    }

    /// The bytes that follow the opcode.
    pub open spec fn operand_bytes(self) -> int {
        match self {
            Operation::Load8(dst, src) => dst.extra_bytes() + src.extra_bytes(),
            Operation::Alu(_, operand) => operand.extra_bytes(),
            Operation::Load16(_) | Operation::StoreSp | Operation::Jump(_) | Operation::Call(_) => 2,
            Operation::LoadHlSpOffset | Operation::AddSpOffset | Operation::JumpRelative(_) => 1,
            _ => 0,
        }
    }

    /// The condition on which the operation leaves the sequence of
    /// instructions, if it is a jump, a call, a return or a restart.
    pub open spec fn branches_on(self) -> Option<Condition> {
        match self {
            Operation::JumpRelative(condition) | Operation::Jump(condition) | Operation::Call(
                condition,
            ) | Operation::Return(condition) => Some(condition),
            Operation::JumpHl | Operation::ReturnInterrupt | Operation::Restart(_) => Some(
                Condition::Always,
            ),
            _ => None,
        }
    }

    /// Whether the operation belongs to the prefixed table.
    pub open spec fn prefixed(self) -> bool {
        match self {
            Operation::Shift(_, _) | Operation::TestBit(_, _) | Operation::ResetBit(_, _)
            | Operation::SetBit(_, _) => true,
            _ => false,
        }
    }

    /// The size of the instruction in bytes: the opcode, the prefix where there
    /// is one, and the bytes that follow.
    pub open spec fn size(self) -> int {
        1 + self.operand_bytes() + if self.prefixed() {
            1int
        } else {
            0int
        }
    }
}

/// The byte operand that a 3-bit field selects: B, C, D, E, H, L, the byte at
/// the address in HL, A.
pub open spec fn operand_at(index: int) -> Operand8 {
    if index == 0 {
        Operand8::Reg(RegByte::B)
    } else if index == 1 {
        Operand8::Reg(RegByte::C)
    } else if index == 2 {
        Operand8::Reg(RegByte::D)
    } else if index == 3 {
        Operand8::Reg(RegByte::E)
    } else if index == 4 {
        Operand8::Reg(RegByte::H)
    } else if index == 5 {
        Operand8::Reg(RegByte::L)
    } else if index == 6 {
        Operand8::Indirect(RegWord::Hl)
    } else {
        Operand8::Reg(RegByte::A)
    }
}

/// The 16-bit register that a 2-bit field selects: BC, DE, HL, SP.
pub open spec fn reg16_at(index: int) -> Reg16 {
    if index == 0 {
        Reg16::Pair(RegWord::Bc)
    } else if index == 1 {
        Reg16::Pair(RegWord::De)
    } else if index == 2 {
        Reg16::Pair(RegWord::Hl)
    } else {
        Reg16::Sp
    }
}

/// The register pair that a 2-bit field selects for the stack: BC, DE, HL, AF.
pub open spec fn stack_pair_at(index: int) -> RegWord {
    if index == 0 {
        RegWord::Bc
    } else if index == 1 {
        RegWord::De
    } else if index == 2 {
        RegWord::Hl
    } else {
        RegWord::Af
    }
}

/// The memory operand that a 2-bit field selects for loads to and from the
/// accumulator: at BC, at DE, at HL with increment, at HL with decrement.
pub open spec fn accumulator_memory_at(index: int) -> Operand8 {
    if index == 0 {
        Operand8::Indirect(RegWord::Bc)
    } else if index == 1 {
        Operand8::Indirect(RegWord::De)
    } else if index == 2 {
        Operand8::IndirectInc
    } else {
        Operand8::IndirectDec
    }
}

/// The condition that a 2-bit field selects: not zero, zero, no carry, carry.
pub open spec fn condition_at(index: int) -> Condition {
    if index == 0 {
        Condition::NotZero
    } else if index == 1 {
        Condition::Zero
    } else if index == 2 {
        Condition::NotCarry
    } else {
        Condition::Carry
    }
}

/// The accumulator operation that a 3-bit field selects.
pub open spec fn alu_op_at(index: int) -> AluOp {
    if index == 0 {
        AluOp::Add
    } else if index == 1 {
        AluOp::Adc
    } else if index == 2 {
        AluOp::Sub
    } else if index == 3 {
        AluOp::Sbc
    } else if index == 4 {
        AluOp::And
    } else if index == 5 {
        AluOp::Xor
    } else if index == 6 {
        AluOp::Or
    } else {
        AluOp::Cp
    }
}

/// The rotation or shift that a 3-bit field selects.
pub open spec fn shift_op_at(index: int) -> ShiftOp {
    if index == 0 {
        ShiftOp::Rlc
    } else if index == 1 {
        ShiftOp::Rrc
    } else if index == 2 {
        ShiftOp::Rl
    } else if index == 3 {
        ShiftOp::Rr
    } else if index == 4 {
        ShiftOp::Sla
    } else if index == 5 {
        ShiftOp::Sra
    } else if index == 6 {
        ShiftOp::Swap
    } else {
        ShiftOp::Srl
    }
}

/// The entries of the primary table with `x` = 0, by `y` and `z`.
pub open spec fn primary_low(y: int, z: int) -> Operation {
    let p = y / 2;
    let q = y % 2;
    if z == 0 {
        if y == 0 {
            Operation::Nop
        } else if y == 1 {
            Operation::StoreSp
        } else if y == 2 {
            Operation::Stop
        } else if y == 3 {
            Operation::JumpRelative(Condition::Always)
        } else {
            Operation::JumpRelative(condition_at(y - 4))
        }
    } else if z == 1 {
        if q == 0 {
            Operation::Load16(reg16_at(p))
        } else {
            Operation::AddHl(reg16_at(p))
        }
    } else if z == 2 {
        if q == 0 {
            Operation::Load8(accumulator_memory_at(p), Operand8::Reg(RegByte::A))
        } else {
            Operation::Load8(Operand8::Reg(RegByte::A), accumulator_memory_at(p))
        }
    } else if z == 3 {
        if q == 0 {
            Operation::Inc16(reg16_at(p))
        } else {
            Operation::Dec16(reg16_at(p))
        }
    } else if z == 4 {
        Operation::Inc8(operand_at(y))
    } else if z == 5 {
        Operation::Dec8(operand_at(y))
    } else if z == 6 {
        Operation::Load8(operand_at(y), Operand8::Immediate)
    } else if y == 0 {
        Operation::Rlca
    } else if y == 1 {
        Operation::Rrca
    } else if y == 2 {
        Operation::Rla
    } else if y == 3 {
        Operation::Rra
    } else if y == 4 {
        Operation::Daa
    } else if y == 5 {
        Operation::Cpl
    } else if y == 6 {
        Operation::Scf
    } else {
        Operation::Ccf
    }
}

/// The entries of the primary table with `x` = 3, by `y` and `z`; `None` where
/// the table has no instruction.
pub open spec fn primary_high(y: int, z: int) -> Option<Operation> {
    let p = y / 2;
    let q = y % 2;
    let a = Operand8::Reg(RegByte::A);
    if z == 0 {
        if y < 4 {
            Some(Operation::Return(condition_at(y)))
        } else if y == 4 {
            Some(Operation::Load8(Operand8::HighImmediate, a))
        } else if y == 5 {
            Some(Operation::AddSpOffset)
        } else if y == 6 {
            Some(Operation::Load8(a, Operand8::HighImmediate))
        } else {
            Some(Operation::LoadHlSpOffset)
        }
    } else if z == 1 {
        if q == 0 {
            Some(Operation::Pop(stack_pair_at(p)))
        } else if p == 0 {
            Some(Operation::Return(Condition::Always))
        } else if p == 1 {
            Some(Operation::ReturnInterrupt)
        } else if p == 2 {
            Some(Operation::JumpHl)
        } else {
            Some(Operation::LoadSpHl)
        }
    } else if z == 2 {
        if y < 4 {
            Some(Operation::Jump(condition_at(y)))
        } else if y == 4 {
            Some(Operation::Load8(Operand8::HighC, a))
        } else if y == 5 {
            Some(Operation::Load8(Operand8::Direct, a))
        } else if y == 6 {
            Some(Operation::Load8(a, Operand8::HighC))
        } else {
            Some(Operation::Load8(a, Operand8::Direct))
        }
    } else if z == 3 {
        if y == 0 {
            Some(Operation::Jump(Condition::Always))
        } else if y == 6 {
            Some(Operation::DisableInterrupts)
        } else if y == 7 {
            Some(Operation::EnableInterrupts)
        } else {
            None
        }
    } else if z == 4 {
        if y < 4 {
            Some(Operation::Call(condition_at(y)))
        } else {
            None
        }
    } else if z == 5 {
        if q == 0 {
            Some(Operation::Push(stack_pair_at(p)))
        } else if p == 0 {
            Some(Operation::Call(Condition::Always))
        } else {
            None
        }
    } else if z == 6 {
        Some(Operation::Alu(alu_op_at(y), Operand8::Immediate))
    } else {
        Some(Operation::Restart((y * 8) as u16))
    }
}

/// The entry of the primary table for an opcode; `None` where the table has no
/// instruction, which is so for eleven opcodes and for the prefix byte.
pub open spec fn primary_entry(opcode: u8) -> Option<Operation> {
    let x = opcode / 64;
    let y = (opcode / 8 % 8) as int;
    let z = (opcode % 8) as int;
    if x == 0 {
        Some(primary_low(y, z))
    } else if x == 1 {
        if opcode == 0x76 {
            Some(Operation::Halt)
        } else {
            Some(Operation::Load8(operand_at(y), operand_at(z)))
        }
    } else if x == 2 {
        Some(Operation::Alu(alu_op_at(y), operand_at(z)))
    } else {
        primary_high(y, z)
    }
}

/// The entry of the prefixed table for an opcode.
pub open spec fn prefixed_entry(opcode: u8) -> Operation {
    let x = opcode / 64;
    let y = opcode / 8 % 8;
    let operand = operand_at((opcode % 8) as int);
    if x == 0 {
        Operation::Shift(shift_op_at(y as int), operand)
    } else if x == 1 {
        Operation::TestBit(y, operand)
    } else if x == 2 {
        Operation::ResetBit(y, operand)
    } else {
        Operation::SetBit(y, operand)
    }
}

/// The entry of one of the two tables: of the prefixed table if `prefixed`,
/// else of the primary table.
pub open spec fn table_entry(opcode: u8, prefixed: bool) -> Option<Operation> {
    if prefixed {
        Some(prefixed_entry(opcode))
    } else {
        primary_entry(opcode)
    }
}

/// Looks a byte operand up by its 3-bit field.
fn select_operand(index: u8) -> (found: Operand8)
    ensures
        found == operand_at(index as int),
{
    match index {
        0 => Operand8::Reg(RegByte::B),
        1 => Operand8::Reg(RegByte::C),
        2 => Operand8::Reg(RegByte::D),
        3 => Operand8::Reg(RegByte::E),
        4 => Operand8::Reg(RegByte::H),
        5 => Operand8::Reg(RegByte::L),
        6 => Operand8::Indirect(RegWord::Hl),
        _ => Operand8::Reg(RegByte::A),
    }
}

/// Looks a 16-bit register up by its 2-bit field.
fn select_reg16(index: u8) -> (found: Reg16)
    ensures
        found == reg16_at(index as int),
{
    match index {
        0 => Reg16::Pair(RegWord::Bc),
        1 => Reg16::Pair(RegWord::De),
        2 => Reg16::Pair(RegWord::Hl),
        _ => Reg16::Sp,
    }
}

/// Looks a register pair of the stack instructions up by its 2-bit field.
fn select_stack_pair(index: u8) -> (found: RegWord)
    ensures
        found == stack_pair_at(index as int),
{
    match index {
        0 => RegWord::Bc,
        1 => RegWord::De,
        2 => RegWord::Hl,
        _ => RegWord::Af,
    }
}

/// Looks the memory operand of an accumulator load up by its 2-bit field.
fn select_accumulator_memory(index: u8) -> (found: Operand8)
    ensures
        found == accumulator_memory_at(index as int),
{
    match index {
        0 => Operand8::Indirect(RegWord::Bc),
        1 => Operand8::Indirect(RegWord::De),
        2 => Operand8::IndirectInc,
        _ => Operand8::IndirectDec,
    }
}

/// Looks a condition up by its 2-bit field.
fn select_condition(index: u8) -> (found: Condition)
    ensures
        found == condition_at(index as int),
{
    match index {
        0 => Condition::NotZero,
        1 => Condition::Zero,
        2 => Condition::NotCarry,
        _ => Condition::Carry,
    }
}

/// Looks an accumulator operation up by its 3-bit field.
fn select_alu_op(index: u8) -> (found: AluOp)
    ensures
        found == alu_op_at(index as int),
{
    match index {
        0 => AluOp::Add,
        1 => AluOp::Adc,
        2 => AluOp::Sub,
        3 => AluOp::Sbc,
        4 => AluOp::And,
        5 => AluOp::Xor,
        6 => AluOp::Or,
        _ => AluOp::Cp,
    }
}

/// Looks a rotation or shift up by its 3-bit field.
fn select_shift_op(index: u8) -> (found: ShiftOp)
    ensures
        found == shift_op_at(index as int),
{
    match index {
        0 => ShiftOp::Rlc,
        1 => ShiftOp::Rrc,
        2 => ShiftOp::Rl,
        3 => ShiftOp::Rr,
        4 => ShiftOp::Sla,
        5 => ShiftOp::Sra,
        6 => ShiftOp::Swap,
        _ => ShiftOp::Srl,
    }
}

/// Works out the entry of the primary table with `x` = 0.
fn decode_primary_low(y: u8, z: u8) -> (operation: Operation)
    requires
        y < 8,
        z < 8,
    ensures
        operation == primary_low(y as int, z as int),
{
    let p = y / 2;
    let q = y % 2;
    match z {
        0 => match y {
            0 => Operation::Nop,
            1 => Operation::StoreSp,
            2 => Operation::Stop,
            3 => Operation::JumpRelative(Condition::Always),
            _ => Operation::JumpRelative(select_condition(y - 4)),
        },
        1 => if q == 0 {
            Operation::Load16(select_reg16(p))
        } else {
            Operation::AddHl(select_reg16(p))
        },
        2 => if q == 0 {
            Operation::Load8(select_accumulator_memory(p), Operand8::Reg(RegByte::A))
        } else {
            Operation::Load8(Operand8::Reg(RegByte::A), select_accumulator_memory(p))
        },
        3 => if q == 0 {
            Operation::Inc16(select_reg16(p))
        } else {
            Operation::Dec16(select_reg16(p))
        },
        4 => Operation::Inc8(select_operand(y)),
        5 => Operation::Dec8(select_operand(y)),
        6 => Operation::Load8(select_operand(y), Operand8::Immediate),
        _ => match y {
            0 => Operation::Rlca,
            1 => Operation::Rrca,
            2 => Operation::Rla,
            3 => Operation::Rra,
            4 => Operation::Daa,
            5 => Operation::Cpl,
            6 => Operation::Scf,
            _ => Operation::Ccf,
        },
    }
}

/// Works out the entry of the primary table with `x` = 3.
fn decode_primary_high(y: u8, z: u8) -> (operation: Option<Operation>)
    requires
        y < 8,
        z < 8,
    ensures
        operation == primary_high(y as int, z as int),
{
    let p = y / 2;
    let q = y % 2;
    let a = Operand8::Reg(RegByte::A);
    match z {
        0 => match y {
            0 | 1 | 2 | 3 => Some(Operation::Return(select_condition(y))),
            4 => Some(Operation::Load8(Operand8::HighImmediate, a)),
            5 => Some(Operation::AddSpOffset),
            6 => Some(Operation::Load8(a, Operand8::HighImmediate)),
            _ => Some(Operation::LoadHlSpOffset),
        },
        1 => if q == 0 {
            Some(Operation::Pop(select_stack_pair(p)))
        } else {
            match p {
                0 => Some(Operation::Return(Condition::Always)),
                1 => Some(Operation::ReturnInterrupt),
                2 => Some(Operation::JumpHl),
                _ => Some(Operation::LoadSpHl),
            }
        },
        2 => match y {
            0 | 1 | 2 | 3 => Some(Operation::Jump(select_condition(y))),
            4 => Some(Operation::Load8(Operand8::HighC, a)),
            5 => Some(Operation::Load8(Operand8::Direct, a)),
            6 => Some(Operation::Load8(a, Operand8::HighC)),
            _ => Some(Operation::Load8(a, Operand8::Direct)),
        },
        3 => match y {
            0 => Some(Operation::Jump(Condition::Always)),
            6 => Some(Operation::DisableInterrupts),
            7 => Some(Operation::EnableInterrupts),
            _ => None,
        },
        4 => if y < 4 {
            Some(Operation::Call(select_condition(y)))
        } else {
            None
        },
        5 => if q == 0 {
            Some(Operation::Push(select_stack_pair(p)))
        } else if p == 0 {
            Some(Operation::Call(Condition::Always))
        } else {
            None
        },
        6 => Some(Operation::Alu(select_alu_op(y), Operand8::Immediate)),
        _ => Some(Operation::Restart((y as u16) * 8)),
    }
}

/// Works out the entry of the primary table for an opcode.
pub fn decode_primary(opcode: u8) -> (operation: Option<Operation>)
    ensures
        operation == primary_entry(opcode),
        operation matches Some(found) ==> found.wf() && !found.prefixed(),
{
    let x = opcode / 64;
    let y = opcode / 8 % 8;
    let z = opcode % 8;
    match x {
        0 => Some(decode_primary_low(y, z)),
        1 => if opcode == 0x76 {
            Some(Operation::Halt)
        } else {
            Some(Operation::Load8(select_operand(y), select_operand(z)))
        },
        2 => Some(Operation::Alu(select_alu_op(y), select_operand(z))),
        _ => decode_primary_high(y, z),
    }
}

/// Works out the entry of the prefixed table for an opcode.
pub fn decode_prefixed(opcode: u8) -> (operation: Operation)
    ensures
        operation == prefixed_entry(opcode),
        operation.wf(),
        operation.prefixed(),
{
    let x = opcode / 64;
    let y = opcode / 8 % 8;
    let operand = select_operand(opcode % 8);
    match x {
        0 => Operation::Shift(select_shift_op(y), operand),
        1 => Operation::TestBit(y, operand),
        2 => Operation::ResetBit(y, operand),
        _ => Operation::SetBit(y, operand),
    }
}

/// Every entry of the two tables is well formed, and the prefixed table holds
/// exactly the operations that it is named for.
pub proof fn lemma_entries_well_formed(opcode: u8, prefixed: bool)
    ensures
        table_entry(opcode, prefixed) matches Some(found) ==> found.wf() && found.prefixed()
            == prefixed && 1 <= found.size() <= 3,
{
}

/// The opcodes for which the primary table has no instruction.
pub proof fn lemma_unknown_opcodes(opcode: u8)
    ensures
        primary_entry(opcode) is None <==> opcode == 0xCB || opcode == 0xD3 || opcode == 0xDB
            || opcode == 0xDD || opcode == 0xE3 || opcode == 0xE4 || opcode == 0xEB || opcode
            == 0xEC || opcode == 0xED || opcode == 0xF4 || opcode == 0xFC || opcode == 0xFD,
{
}

/// The two opcode tables, built once and read by index.
pub struct OpcodeTable {
    primary: Vec<Option<Operation>>,
    prefixed: Vec<Operation>,
}

impl OpcodeTable {
    #[verifier::type_invariant]
    spec fn filled(self) -> bool {
        &&& self.primary.len() == 256
        &&& self.prefixed.len() == 256
        &&& forall|opcode: u8| self.primary[opcode as int] == #[trigger] primary_entry(opcode)
        &&& forall|opcode: u8| self.prefixed[opcode as int] == #[trigger] prefixed_entry(opcode)
    }

    /// The entry that the tables hold for an opcode: of the prefixed table if
    /// `prefixed`, else of the primary table.
    pub closed spec fn entry(&self, opcode: u8, prefixed: bool) -> Option<Operation> {
        if prefixed {
            Some(self.prefixed[opcode as int])
        } else {
            self.primary[opcode as int]
        }
    }

    /// Builds both tables.
    pub fn new() -> (table: OpcodeTable)
        ensures
            forall|opcode: u8, prefixed: bool| #[trigger]
                table.entry(opcode, prefixed) == table_entry(opcode, prefixed),
    {
        let mut primary: Vec<Option<Operation>> = Vec::new();
        let mut prefixed: Vec<Operation> = Vec::new();
        let mut opcode: u8 = 0;
        loop
            invariant_except_break
                primary.len() == opcode,
                prefixed.len() == opcode,
            invariant
                forall|before: u8|
                    before < primary.len() ==> primary[before as int] == #[trigger] primary_entry(
                        before,
                    ),
                forall|before: u8|
                    before < prefixed.len() ==> prefixed[before as int]
                        == #[trigger] prefixed_entry(before),
            ensures
                primary.len() == 256,
                prefixed.len() == 256,
            decreases 255 - opcode,
        {
            primary.push(decode_primary(opcode));
            prefixed.push(decode_prefixed(opcode));
            if opcode == 255 {
                break ;
            }
            opcode = opcode + 1;
        }
        OpcodeTable { primary, prefixed }
    }

    /// The entry for an opcode: of the prefixed table if `prefixed`, else of
    /// the primary table, where `None` says that there is no such instruction.
    pub fn lookup(&self, opcode: u8, prefixed: bool) -> (entry: Option<Operation>)
        ensures
            entry == self.entry(opcode, prefixed),
            entry == table_entry(opcode, prefixed),
            entry matches Some(found) ==> found.wf(),
    {
        proof {
            use_type_invariant(self);
            lemma_entries_well_formed(opcode, prefixed);
        }
        if prefixed {
            Some(self.prefixed[opcode as usize])
        } else {
            self.primary[opcode as usize]
        }
    }
}

impl Operand8 {
    /// The bytes that follow the opcode for this operand.
    pub fn extra_length(&self) -> (bytes: u8)
        ensures
            bytes == self.extra_bytes(),
    {
        match self {
            Operand8::Immediate | Operand8::HighImmediate => 1,
            Operand8::Direct => 2,
            _ => 0,
        }
    }
}

impl Operation {
    /// The size of the instruction in bytes.
    pub fn length(&self) -> (bytes: u8)
        ensures
            bytes == self.size(),
    {
        match self {
            Operation::Load8(dst, src) => 1 + dst.extra_length() + src.extra_length(),
            Operation::Alu(_, operand) => 1 + operand.extra_length(),
            Operation::Load16(_) | Operation::StoreSp | Operation::Jump(_) | Operation::Call(_) => 3,
            Operation::LoadHlSpOffset | Operation::AddSpOffset | Operation::JumpRelative(_) => 2,
            Operation::Shift(_, _) | Operation::TestBit(_, _) | Operation::ResetBit(_, _)
            | Operation::SetBit(_, _) => 2,
            _ => 1,
        }
    }
}

} // verus!
