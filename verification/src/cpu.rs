//! The processor: register file, arithmetic unit, timer and instruction engine.

pub mod alu;
pub mod interrupt;
pub mod machine;
pub mod opcode;
pub mod register;
pub mod timer;

use crate::cpu::interrupt::InterruptController;
use crate::cpu::interrupt::InterruptSource;
use crate::cpu::machine::CpuError;
use crate::cpu::machine::CpuState;
use crate::cpu::machine::Machine;
use crate::cpu::machine::popped_flags;
use crate::cpu::machine::Place;
use crate::cpu::opcode::AluOp;
use crate::cpu::opcode::Condition;
use crate::cpu::opcode::OpcodeTable;
use crate::cpu::opcode::Operand8;
use crate::cpu::opcode::Operation;
use crate::cpu::opcode::Reg16;
use crate::cpu::opcode::ShiftOp;
use crate::cpu::opcode::PREFIX;
use crate::cpu::register::high_byte;
use crate::cpu::register::high_byte_of;
use crate::cpu::register::low_byte;
use crate::cpu::register::low_byte_of;
use crate::cpu::register::make_word;
use crate::cpu::register::RegByte;
use crate::cpu::register::RegWord;
use crate::cpu::register::Registers;
use crate::memory::Memory;
use vstd::prelude::*;

verus! {

/// The processor.
pub struct Cpu {
    pub regs: Registers,
    pub sp: u16,
    pub pc: u16,
    /// The interrupt master enable (IME).
    pub interrupts_enabled: bool,
    /// Whether the processor waits for an interrupt.
    pub halted: bool,
    /// The two opcode tables, built when the processor is.
    pub table: OpcodeTable,
}

impl View for Cpu {
    type V = CpuState;

    open spec fn view(&self) -> CpuState {
        CpuState {
            regs: self.regs,
            sp: self.sp,
            pc: self.pc,
            interrupts_enabled: self.interrupts_enabled,
            halted: self.halted,
        }
    }
}

impl Cpu {
    /// The processor together with an address space.
    pub open spec fn on(&self, memory: &Memory) -> Machine {
        Machine { cpu: self@, mem: memory@ }
    }

    /// Reads the byte at PC and moves PC on.
    fn fetch_byte(&mut self, mem: &Memory) -> (byte: u8)
        ensures
            byte == old(self).on(mem).imm8(),
            final(self).on(mem) == old(self).on(mem).skip(1),
    {
        let byte = mem.read(self.pc);
        self.pc = self.pc.wrapping_add(1);
        byte
    }

    /// Reads the word at PC, low byte first, and moves PC on.
    fn fetch_word(&mut self, mem: &Memory) -> (word: u16)
        ensures
            word == old(self).on(mem).imm16(),
            final(self).on(mem) == old(self).on(mem).skip(2),
    {
        let lo_byte = mem.read(self.pc);
        let hi_byte = mem.read(self.pc.wrapping_add(1));
        self.pc = self.pc.wrapping_add(2);
        make_word(hi_byte, lo_byte)
    }

    /// Pushes a word: the high byte first, SP counting down before each byte.
    fn push_word(&mut self, mem: &mut Memory, value: u16)
        ensures
            final(self).on(final(mem)) == old(self).on(old(mem)).push16(value),
    {
        self.sp = self.sp.wrapping_sub(1);
        mem.write(self.sp, high_byte(value));
        self.sp = self.sp.wrapping_sub(1);
        mem.write(self.sp, low_byte(value));
    }

    /// Takes a word off the stack: the low byte first, SP counting up after
    /// each byte.
    fn pop_word(&mut self, mem: &Memory) -> (word: u16)
        ensures
            word == old(self).on(mem).top16(),
            final(self).on(mem) == old(self).on(mem).drop16(),
    {
        let lo_byte = mem.read(self.sp);
        let hi_byte = mem.read(self.sp.wrapping_add(1));
        self.sp = self.sp.wrapping_add(2);
        make_word(hi_byte, lo_byte)
    }

    /// Whether a condition holds of the flags.
    fn condition_holds(&self, mem: &Memory, condition: Condition) -> (holds: bool)
        ensures
            holds == self.on(mem).holds(condition),
    {
        match condition {
            Condition::Always => true,
            Condition::NotZero => !alu::check_zero_flag(self.regs.f),
            Condition::Zero => alu::check_zero_flag(self.regs.f),
            Condition::NotCarry => !alu::check_carry_flag(self.regs.f),
            Condition::Carry => alu::check_carry_flag(self.regs.f),
        }
    }

    /// Finds an operand: reads the bytes of the instruction that it takes and
    /// lets HL count where the operand says so.
    fn resolve(&mut self, mem: &Memory, operand: Operand8) -> (place: Place)
        ensures
            place == old(self).on(mem).place(operand),
            final(self).on(mem) == old(self).on(mem).after_operand(operand),
    {
        match operand {
            Operand8::Reg(reg) => Place::Register(reg),
            Operand8::Indirect(pair) => Place::Address(self.regs.read_value16_from(pair)),
            Operand8::IndirectInc => {
                let addr = self.regs.read_value16_from(RegWord::Hl);
                self.regs.write_value16_to(RegWord::Hl, alu::inc_16(addr));
                Place::Address(addr)
            },
            Operand8::IndirectDec => {
                let addr = self.regs.read_value16_from(RegWord::Hl);
                self.regs.write_value16_to(RegWord::Hl, alu::dec_16(addr));
                Place::Address(addr)
            },
            Operand8::Immediate => Place::Literal(self.fetch_byte(mem)),
            Operand8::Direct => Place::Address(self.fetch_word(mem)),
            Operand8::HighImmediate => {
                let offset = self.fetch_byte(mem);
                Place::Address(0xFF00 + offset as u16)
            },
            Operand8::HighC => {
                let offset = self.regs.read_value8_from(RegByte::C);
                Place::Address(0xFF00 + offset as u16)
            },
        }
    }

    /// The byte at a place.
    fn read_place(&self, mem: &Memory, place: Place) -> (value: u8)
        ensures
            value == self.on(mem).get(place),
    {
        match place {
            Place::Register(reg) => self.regs.read_value8_from(reg),
            Place::Address(addr) => mem.read(addr),
            Place::Literal(value) => value,
        }
    }

    /// Puts a byte at a place.
    fn write_place(&mut self, mem: &mut Memory, place: Place, value: u8)
        ensures
            final(self).on(final(mem)) == old(self).on(old(mem)).put(place, value),
    {
        match place {
            Place::Register(reg) => self.regs.write_value8_to(reg, value),
            Place::Address(addr) => mem.write(addr, value),
            Place::Literal(_) => (),
        }
    }

    /// The word in a 16-bit register.
    fn read_wide(&self, mem: &Memory, reg: Reg16) -> (value: u16)
        ensures
            value == self.on(mem).wide(reg),
    {
        match reg {
            Reg16::Pair(pair) => self.regs.read_value16_from(pair),
            Reg16::Sp => self.sp,
        }
    }

    /// Puts a word in a 16-bit register.
    fn write_wide(&mut self, mem: &Memory, reg: Reg16, value: u16)
        ensures
            final(self).on(mem) == old(self).on(mem).with_wide(reg, value),
    {
        match reg {
            Reg16::Pair(pair) => self.regs.write_value16_to(pair, value),
            Reg16::Sp => self.sp = value,
        }
    }

    /// Replaces the accumulator and the flags.
    fn write_accumulator(&mut self, mem: &Memory, pair: (u8, u8))
        ensures
            final(self).on(mem) == old(self).on(mem).with_accumulator(pair),
    {
        self.regs.write_value8_to(RegByte::A, pair.1);
        self.regs.write_value8_to(RegByte::F, pair.0);
    }

    /// The flags that adding a signed byte to SP leaves.
    fn flags_of_sp_offset(&self, mem: &Memory, offset: u8) -> (flags: u8)
        ensures
            flags == self.on(mem).offset_flags(offset),
    {
        // The flags come from adding the low byte of SP and the unsigned immediate byte
        let sum = alu::add_8(self.regs.f, low_byte(self.sp), offset);
        alu::clear_zero(sum.0)
    }

    /// SP plus a byte taken as signed.
    fn sp_with_offset(&self, mem: &Memory, offset: u8) -> (sum: u16)
        ensures
            sum == self.on(mem).sp_plus(offset),
    {
        self.sp.wrapping_add_signed(signed_offset(offset))
    }

    fn opcode_nop(&mut self)
        ensures
            *final(self) == *old(self),
    {
    }

    fn opcode_stop(&mut self)
        ensures
            *final(self) == *old(self),
    {
    }

    fn opcode_halt(&mut self, mem: &Memory)
        ensures
            final(self).on(mem) == old(self).on(mem).execute(Operation::Halt),
    {
        self.halted = true;
    }

    fn opcode_di(&mut self, mem: &Memory)
        ensures
            final(self).on(mem) == old(self).on(mem).execute(Operation::DisableInterrupts),
    {
        self.interrupts_enabled = false;
    }

    fn opcode_ei(&mut self, mem: &Memory)
        ensures
            final(self).on(mem) == old(self).on(mem).execute(Operation::EnableInterrupts),
    {
        self.interrupts_enabled = true;
    }

    fn opcode_ld(&mut self, mem: &mut Memory, dst: Operand8, src: Operand8)
        ensures
            final(self).on(final(mem)) == old(self).on(old(mem)).execute(
                Operation::Load8(dst, src),
            ),
    {
        let source = self.resolve(mem, src);
        let value = self.read_place(mem, source);
        let target = self.resolve(mem, dst);
        self.write_place(mem, target, value);
    }

    fn opcode_ld_word_to_register(&mut self, mem: &Memory, dest: Reg16)
        ensures
            final(self).on(mem) == old(self).on(mem).execute(Operation::Load16(dest)),
    {
        let word = self.fetch_word(mem);
        self.write_wide(mem, dest, word);
    }

    fn opcode_ld_sp_to_address(&mut self, mem: &mut Memory)
        ensures
            final(self).on(final(mem)) == old(self).on(old(mem)).execute(Operation::StoreSp),
    {
        let addr = self.fetch_word(mem);
        mem.write(addr, low_byte(self.sp));
        mem.write(addr.wrapping_add(1), high_byte(self.sp));
    }

    fn opcode_ld_reg_to_stackptr(&mut self, mem: &Memory)
        ensures
            final(self).on(mem) == old(self).on(mem).execute(Operation::LoadSpHl),
    {
        self.sp = self.regs.read_value16_from(RegWord::Hl);
    }

    fn opcode_add_sp_byte_to_register(&mut self, mem: &Memory)
        ensures
            final(self).on(mem) == old(self).on(mem).execute(Operation::LoadHlSpOffset),
    {
        let offset = self.fetch_byte(mem);
        let flags = self.flags_of_sp_offset(mem, offset);
        let sum = self.sp_with_offset(mem, offset);
        self.regs.write_value16_to(RegWord::Hl, sum);
        self.regs.write_value8_to(RegByte::F, flags);
    }

    fn opcode_add_sp_byte(&mut self, mem: &Memory)
        ensures
            final(self).on(mem) == old(self).on(mem).execute(Operation::AddSpOffset),
    {
        let offset = self.fetch_byte(mem);
        let flags = self.flags_of_sp_offset(mem, offset);
        self.sp = self.sp_with_offset(mem, offset);
        self.regs.write_value8_to(RegByte::F, flags);
    }

    fn opcode_inc8(&mut self, mem: &mut Memory, dest: Operand8)
        ensures
            final(self).on(final(mem)) == old(self).on(old(mem)).execute(Operation::Inc8(dest)),
    {
        let flags = self.regs.f;
        let place = self.resolve(mem, dest);
        let value = self.read_place(mem, place);
        let result = alu::inc_8(flags, value);
        self.write_place(mem, place, result.1);
        self.regs.write_value8_to(RegByte::F, result.0);
    }

    fn opcode_dec8(&mut self, mem: &mut Memory, dest: Operand8)
        ensures
            final(self).on(final(mem)) == old(self).on(old(mem)).execute(Operation::Dec8(dest)),
    {
        let flags = self.regs.f;
        let place = self.resolve(mem, dest);
        let value = self.read_place(mem, place);
        let result = alu::dec_8(flags, value);
        self.write_place(mem, place, result.1);
        self.regs.write_value8_to(RegByte::F, result.0);
    }

    fn opcode_inc16(&mut self, mem: &Memory, dest: Reg16)
        ensures
            final(self).on(mem) == old(self).on(mem).execute(Operation::Inc16(dest)),
    {
        let value = self.read_wide(mem, dest);
        self.write_wide(mem, dest, alu::inc_16(value));
    }

    fn opcode_dec16(&mut self, mem: &Memory, dest: Reg16)
        ensures
            final(self).on(mem) == old(self).on(mem).execute(Operation::Dec16(dest)),
    {
        let value = self.read_wide(mem, dest);
        self.write_wide(mem, dest, alu::dec_16(value));
    }

    fn opcode_add_register_word(&mut self, mem: &Memory, src: Reg16)
        ensures
            final(self).on(mem) == old(self).on(mem).execute(Operation::AddHl(src)),
    {
        let a = self.regs.read_value16_from(RegWord::Hl);
        let b = self.read_wide(mem, src);
        let result = alu::add_16(self.regs.f, a, b);
        self.regs.write_value16_to(RegWord::Hl, result.1);
        self.regs.write_value8_to(RegByte::F, result.0);
    }

    /// The flag byte and the result of an operation on the accumulator and a byte.
    fn compute(flags: u8, op: AluOp, a: u8, b: u8) -> (result: (u8, u8))
        ensures
            result == Machine::alu_result(flags, op, a, b),
    {
        match op {
            AluOp::Add => alu::add_8(flags, a, b),
            AluOp::Adc => alu::adc_8(flags, a, b),
            AluOp::Sub => alu::sub_8(flags, a, b),
            AluOp::Sbc => alu::sbc_8(flags, a, b),
            AluOp::And => alu::and_8(flags, a, b),
            AluOp::Xor => alu::xor_8(flags, a, b),
            AluOp::Or => alu::or_8(flags, a, b),
            AluOp::Cp => (alu::cp_8(flags, a, b), a),
        }
    }

    fn opcode_alu(&mut self, mem: &Memory, op: AluOp, src: Operand8)
        ensures
            final(self).on(mem) == old(self).on(mem).execute(Operation::Alu(op, src)),
    {
        let a = self.regs.read_value8_from(RegByte::A);
        let flags = self.regs.f;
        let place = self.resolve(mem, src);
        let b = self.read_place(mem, place);
        self.write_accumulator(mem, Self::compute(flags, op, a, b));
    }

    fn opcode_rlca(&mut self, mem: &Memory)
        ensures
            final(self).on(mem) == old(self).on(mem).execute(Operation::Rlca),
    {
        let result = alu::rotate_left_8(self.regs.f, self.regs.a);
        self.write_accumulator(mem, (alu::toggle_zero(result.0, false), result.1));
    }

    fn opcode_rrca(&mut self, mem: &Memory)
        ensures
            final(self).on(mem) == old(self).on(mem).execute(Operation::Rrca),
    {
        let result = alu::rotate_right_8(self.regs.f, self.regs.a);
        self.write_accumulator(mem, (alu::toggle_zero(result.0, false), result.1));
    }

    fn opcode_rla(&mut self, mem: &Memory)
        ensures
            final(self).on(mem) == old(self).on(mem).execute(Operation::Rla),
    {
        let result = alu::rotate_left_8_carry(self.regs.f, self.regs.a);
        self.write_accumulator(mem, (alu::toggle_zero(result.0, false), result.1));
    }

    fn opcode_rra(&mut self, mem: &Memory)
        ensures
            final(self).on(mem) == old(self).on(mem).execute(Operation::Rra),
    {
        let result = alu::rotate_right_8_carry(self.regs.f, self.regs.a);
        self.write_accumulator(mem, (alu::toggle_zero(result.0, false), result.1));
    }

    fn opcode_daa(&mut self, mem: &Memory)
        ensures
            final(self).on(mem) == old(self).on(mem).execute(Operation::Daa),
    {
        let result = alu::unsigned_byte_to_bcd(self.regs.f, self.regs.a);
        self.write_accumulator(mem, result);
    }

    fn opcode_cpl(&mut self, mem: &Memory)
        ensures
            final(self).on(mem) == old(self).on(mem).execute(Operation::Cpl),
    {
        let result = alu::not_8(self.regs.f, self.regs.a);
        self.write_accumulator(mem, result);
    }

    fn opcode_scf(&mut self, mem: &Memory)
        ensures
            final(self).on(mem) == old(self).on(mem).execute(Operation::Scf),
    {
        let flags = alu::change_flags(
            self.regs.f,
            alu::FlagState::Untouched,
            alu::FlagState::Clear,
            alu::FlagState::Clear,
            alu::FlagState::SetOn,
        );
        self.regs.write_value8_to(RegByte::F, flags);
    }

    fn opcode_ccf(&mut self, mem: &Memory)
        ensures
            final(self).on(mem) == old(self).on(mem).execute(Operation::Ccf),
    {
        let carry = alu::check_carry_flag(self.regs.f);
        let flags = alu::change_flags(
            self.regs.f,
            alu::FlagState::Untouched,
            alu::FlagState::Clear,
            alu::FlagState::Clear,
            alu::FlagState::Toggle(!carry),
        );
        self.regs.write_value8_to(RegByte::F, flags);
    }

    fn opcode_jr(&mut self, mem: &Memory, condition: Condition)
        ensures
            final(self).on(mem) == old(self).on(mem).execute(Operation::JumpRelative(condition)),
    {
        let offset = self.fetch_byte(mem);
        if self.condition_holds(mem, condition) {
            self.pc = self.pc.wrapping_add_signed(signed_offset(offset));
        }
    }

    fn opcode_jp(&mut self, mem: &Memory, condition: Condition)
        ensures
            final(self).on(mem) == old(self).on(mem).execute(Operation::Jump(condition)),
    {
        let addr = self.fetch_word(mem);
        if self.condition_holds(mem, condition) {
            self.pc = addr;
        }
    }

    fn opcode_jp_hl(&mut self, mem: &Memory)
        ensures
            final(self).on(mem) == old(self).on(mem).execute(Operation::JumpHl),
    {
        self.pc = self.regs.read_value16_from(RegWord::Hl);
    }

    fn opcode_call(&mut self, mem: &mut Memory, condition: Condition)
        ensures
            final(self).on(final(mem)) == old(self).on(old(mem)).execute(
                Operation::Call(condition),
            ),
    {
        let addr = self.fetch_word(mem);
        if self.condition_holds(mem, condition) {
            self.push_word(mem, self.pc);
            self.pc = addr;
        }
    }

    fn opcode_ret(&mut self, mem: &Memory, condition: Condition)
        ensures
            final(self).on(mem) == old(self).on(mem).execute(Operation::Return(condition)),
    {
        if self.condition_holds(mem, condition) {
            self.pc = self.pop_word(mem);
        }
    }

    fn opcode_reti(&mut self, mem: &Memory)
        ensures
            final(self).on(mem) == old(self).on(mem).execute(Operation::ReturnInterrupt),
    {
        self.pc = self.pop_word(mem);
        self.interrupts_enabled = true;
    }

    fn opcode_rst(&mut self, mem: &mut Memory, value: u16)
        ensures
            final(self).on(final(mem)) == old(self).on(old(mem)).execute(
                Operation::Restart(value),
            ),
    {
        self.push_word(mem, self.pc);
        self.pc = value;
    }

    /// Pushes a register pair: the high byte at the higher address.
    pub fn opcode_push(&mut self, mem: &mut Memory, src: RegWord)
        ensures
            final(self).on(final(mem)) == old(self).on(old(mem)).execute(Operation::Push(src)),
            final(self)@.regs == old(self)@.regs,
            final(self)@.pc == old(self)@.pc,
            final(self)@.sp == alu::wrap16(old(self)@.sp - 2),
            old(mem)@.wf() && old(self).on(old(mem)).stack_stores(old(self)@.regs.get16(src)) ==> {
                &&& final(mem)@.wf()
                &&& final(mem)@.read(alu::wrap16(old(self)@.sp - 1)) == high_byte_of(
                    old(self)@.regs.get16(src),
                )
                &&& final(mem)@.read(alu::wrap16(old(self)@.sp - 2)) == low_byte_of(
                    old(self)@.regs.get16(src),
                )
                &&& final(self).on(final(mem)).top16() == old(self)@.regs.get16(src)
            },
    {
        let value = self.regs.read_value16_from(src);
        proof {
            if mem@.wf() && self.on(mem).stack_stores(value) {
                self.on(mem).lemma_push_then_pop(value);
            }
        }
        self.push_word(mem, value);
    }

    /// Pops a register pair. Of AF the low nibble of F comes back as zero.
    pub fn opcode_pop(&mut self, mem: &Memory, dest: RegWord)
        ensures
            final(self).on(mem) == old(self).on(mem).execute(Operation::Pop(dest)),
            final(self)@.pc == old(self)@.pc,
            final(self)@.sp == alu::wrap16(old(self)@.sp + 2),
            final(self)@.regs.get16(dest) == if dest == RegWord::Af {
                popped_flags(old(self).on(mem).top16())
            } else {
                old(self).on(mem).top16()
            },
            forall|other: RegWord|
                other != dest ==> final(self)@.regs.get16(other) == old(self)@.regs.get16(other),
    {
        proof {
            let top = self.on(mem).top16();
            let value = if dest == RegWord::Af {
                popped_flags(top)
            } else {
                top
            };
            self.regs.lemma_read_after_write16(dest, value, dest);
            assert forall|other: RegWord| other != dest implies self.regs.with16(
                dest,
                value,
            ).get16(other) == self.regs.get16(other) by {
                self.regs.lemma_read_after_write16(dest, value, other);
            }
        }
        let popped = self.pop_word(mem);
        let value = match dest {
            RegWord::Af => popped - popped % 16,
            _ => popped,
        };
        self.regs.write_value16_to(dest, value);
    }

    /// The flag byte and the result of a rotation or shift of the prefixed table.
    fn shift(flags: u8, op: ShiftOp, value: u8) -> (result: (u8, u8))
        ensures
            result == Machine::shift_result(flags, op, value),
    {
        match op {
            ShiftOp::Rlc => alu::rotate_left_8(flags, value),
            ShiftOp::Rrc => alu::rotate_right_8(flags, value),
            ShiftOp::Rl => alu::rotate_left_8_carry(flags, value),
            ShiftOp::Rr => alu::rotate_right_8_carry(flags, value),
            ShiftOp::Sla => alu::shift_left_8(flags, value),
            ShiftOp::Sra => alu::shift_right_arithmetic_8(flags, value),
            ShiftOp::Swap => alu::swap_nibbles_8(flags, value),
            ShiftOp::Srl => alu::shift_right_logic_8(flags, value),
        }
    }

    fn opcode_shift(&mut self, mem: &mut Memory, op: ShiftOp, dest: Operand8)
        ensures
            final(self).on(final(mem)) == old(self).on(old(mem)).execute(
                Operation::Shift(op, dest),
            ),
    {
        let flags = self.regs.f;
        let place = self.resolve(mem, dest);
        let value = self.read_place(mem, place);
        let result = Self::shift(flags, op, value);
        self.write_place(mem, place, result.1);
        self.regs.write_value8_to(RegByte::F, result.0);
    }

    fn opcode_bit(&mut self, mem: &Memory, dest: Operand8, bit_index: u8)
        requires
            bit_index < 8,
        ensures
            final(self).on(mem) == old(self).on(mem).execute(
                Operation::TestBit(bit_index, dest),
            ),
    {
        let flags = self.regs.f;
        let place = self.resolve(mem, dest);
        let value = self.read_place(mem, place);
        let bit_value = value & (1u8 << bit_index);
        let flags = alu::change_flags(
            flags,
            alu::FlagState::Toggle(bit_value == 0),
            alu::FlagState::Clear,
            alu::FlagState::SetOn,
            alu::FlagState::Untouched,
        );
        self.regs.write_value8_to(RegByte::F, flags);
    }

    fn opcode_res(&mut self, mem: &mut Memory, dest: Operand8, bit_index: u8)
        requires
            bit_index < 8,
        ensures
            final(self).on(final(mem)) == old(self).on(old(mem)).execute(
                Operation::ResetBit(bit_index, dest),
            ),
    {
        let place = self.resolve(mem, dest);
        let value = self.read_place(mem, place);
        let mask = 1u8 << bit_index;
        self.write_place(mem, place, value & !mask);
    }

    fn opcode_set(&mut self, mem: &mut Memory, dest: Operand8, bit_index: u8)
        requires
            bit_index < 8,
        ensures
            final(self).on(final(mem)) == old(self).on(old(mem)).execute(
                Operation::SetBit(bit_index, dest),
            ),
    {
        let place = self.resolve(mem, dest);
        let value = self.read_place(mem, place);
        let mask = 1u8 << bit_index;
        self.write_place(mem, place, value | mask);
    }

    /// Begins to serve an interrupt source: pushes PC, clears the source's bit
    /// in the interrupt flags, jumps to the source's vector and turns
    /// interrupts off.
    fn handle_interrupt(&mut self, mem: &mut Memory, source: InterruptSource)
        ensures
            final(self).on(final(mem)) == old(self).on(old(mem)).dispatch(source),
    {
        self.push_word(mem, self.pc);
        InterruptController::acknowledge(mem, source);
        self.pc = InterruptController::vector_for(source);
        self.interrupts_enabled = false;
    }

    /// Executes one operation, PC being past its opcode already.
    ///
    /// A bit operation that names a bit above 7 is refused and changes nothing.
    #[verifier::rlimit(50)]
    pub fn execute(&mut self, memory: &mut Memory, operation: Operation) -> (result: Result<
        (),
        CpuError,
    >)
        ensures
            operation.invalid_bit_index() matches Some(index) ==> result == Err::<(), CpuError>(
                CpuError::InvalidBitIndex(index),
            ) && final(self).on(final(memory)) == old(self).on(old(memory)),
            operation.invalid_bit_index() is None ==> result is Ok && final(self).on(final(memory))
                == old(self).on(old(memory)).execute(operation),
    {
        match operation {
            Operation::Nop => self.opcode_nop(),
            Operation::Stop => self.opcode_stop(),
            Operation::Halt => self.opcode_halt(memory),
            Operation::DisableInterrupts => self.opcode_di(memory),
            Operation::EnableInterrupts => self.opcode_ei(memory),
            Operation::Load8(dst, src) => self.opcode_ld(memory, dst, src),
            Operation::Load16(reg) => self.opcode_ld_word_to_register(memory, reg),
            Operation::StoreSp => self.opcode_ld_sp_to_address(memory),
            Operation::LoadSpHl => self.opcode_ld_reg_to_stackptr(memory),
            Operation::LoadHlSpOffset => self.opcode_add_sp_byte_to_register(memory),
            Operation::AddSpOffset => self.opcode_add_sp_byte(memory),
            Operation::Inc8(operand) => self.opcode_inc8(memory, operand),
            Operation::Dec8(operand) => self.opcode_dec8(memory, operand),
            Operation::Inc16(reg) => self.opcode_inc16(memory, reg),
            Operation::Dec16(reg) => self.opcode_dec16(memory, reg),
            Operation::AddHl(reg) => self.opcode_add_register_word(memory, reg),
            Operation::Alu(op, operand) => self.opcode_alu(memory, op, operand),
            Operation::Rlca => self.opcode_rlca(memory),
            Operation::Rrca => self.opcode_rrca(memory),
            Operation::Rla => self.opcode_rla(memory),
            Operation::Rra => self.opcode_rra(memory),
            Operation::Daa => self.opcode_daa(memory),
            Operation::Cpl => self.opcode_cpl(memory),
            Operation::Scf => self.opcode_scf(memory),
            Operation::Ccf => self.opcode_ccf(memory),
            Operation::JumpRelative(condition) => self.opcode_jr(memory, condition),
            Operation::Jump(condition) => self.opcode_jp(memory, condition),
            Operation::JumpHl => self.opcode_jp_hl(memory),
            Operation::Call(condition) => self.opcode_call(memory, condition),
            Operation::Return(condition) => self.opcode_ret(memory, condition),
            Operation::ReturnInterrupt => self.opcode_reti(memory),
            Operation::Restart(target) => self.opcode_rst(memory, target),
            Operation::Push(pair) => self.opcode_push(memory, pair),
            Operation::Pop(pair) => self.opcode_pop(memory, pair),
            Operation::Shift(op, operand) => self.opcode_shift(memory, op, operand),
            Operation::TestBit(index, operand) => {
                if index >= 8 {
                    return Err(CpuError::InvalidBitIndex(index));
                }
                self.opcode_bit(memory, operand, index)
            },
            Operation::ResetBit(index, operand) => {
                if index >= 8 {
                    return Err(CpuError::InvalidBitIndex(index));
                }
                self.opcode_res(memory, operand, index)
            },
            Operation::SetBit(index, operand) => {
                if index >= 8 {
                    return Err(CpuError::InvalidBitIndex(index));
                }
                self.opcode_set(memory, operand, index)
            },
        }
        Ok(())
    }

    /// The processor at power-up.
    pub fn new() -> (cpu: Cpu)
        ensures
            cpu@ == CpuState::boot(),
    {
        Cpu {
            regs: Registers::new(),
            sp: 0xFFFE,
            pc: 0x0100,
            interrupts_enabled: false,
            halted: false,
            table: OpcodeTable::new(),
        }
    }

    /// Takes one step: serves a pending interrupt or executes the instruction
    /// at PC, and reports how many instructions it executed.
    ///
    /// A step that serves an interrupt, or that finds the processor waiting
    /// with no interrupt pending, executes none. Where the byte at PC is no
    /// opcode, the step reports it with the address and changes nothing, so
    /// that the caller can stop there.
    #[verifier::rlimit(50)]
    pub fn cycle(&mut self, memory: &mut Memory) -> (result: Result<usize, CpuError>)
        ensures
            final(self).on(final(memory)) == old(self).on(old(memory)).step(),
            result == old(self).on(old(memory)).step_result(),
            old(self)@.flags_valid() ==> final(self)@.flags_valid(),
    {
        let ghost before = old(self).on(old(memory));
        let ghost awake = before.woken();
        proof {
            if before.cpu.flags_valid() {
                before.lemma_flags_stay_valid();
            }
        }
        let pending = InterruptController::pending(memory);
        if self.halted && pending.is_none() {
            return Ok(0);
        }
        if self.interrupts_enabled {
            if let Some(source) = pending {
                self.halted = false;
                self.handle_interrupt(memory, source);
                return Ok(0);
            }
        }
        let start = self.pc;
        let opcode = memory.read(start);
        let prefixed = opcode == PREFIX;
        let code = if prefixed {
            memory.read(start.wrapping_add(1))
        } else {
            opcode
        };
        assert(awake.decoded() == crate::cpu::opcode::table_entry(code, prefixed));
        match self.table.lookup(code, prefixed) {
            None => Err(CpuError::UnknownInstruction { opcode, pc: start }),
            Some(operation) => {
                self.halted = false;
                self.pc = start.wrapping_add(
                    if prefixed {
                        2
                    } else {
                        1
                    },
                );
                assert(self.on(memory) == awake.skip(
                    if awake.prefixed() {
                        2
                    } else {
                        1
                    },
                ));
                assert(operation.invalid_bit_index() is None);
                match self.execute(memory, operation) {
                    Ok(()) => {
                        assert(self.on(memory) == awake.run(operation));
                        Ok(1)
                    },
                    Err(error) => Err(error),
                }
            },
        }
    }
}

impl Default for Cpu {
    fn default() -> (cpu: Cpu)
        ensures
            cpu@ == CpuState::boot(),
    {
        Cpu::new()
    }
}

/// The signed offset that a byte stands for.
fn signed_offset(byte: u8) -> (offset: i16)
    ensures
        offset == alu::signed8(byte),
{
    if byte < 128 {
        byte as i16
    } else {
        byte as i16 - 256
    }
}

} // verus!
