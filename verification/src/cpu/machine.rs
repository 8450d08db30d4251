//! What the processor does, stated on values: the state of processor and
//! address space together, and the state that each operation, each interrupt
//! and each step leaves.

use crate::cpu::alu::carry_flag;
use crate::cpu::alu::changed_flags;
use crate::cpu::alu::signed8;
use crate::cpu::alu::spec_adc_8;
use crate::cpu::alu::spec_add_16;
use crate::cpu::alu::spec_add_8;
use crate::cpu::alu::spec_and_8;
use crate::cpu::alu::spec_dec_8;
use crate::cpu::alu::spec_inc_8;
use crate::cpu::alu::spec_not_8;
use crate::cpu::alu::spec_or_8;
use crate::cpu::alu::spec_rotate_left_8;
use crate::cpu::alu::spec_rotate_left_8_carry;
use crate::cpu::alu::spec_rotate_right_8;
use crate::cpu::alu::spec_rotate_right_8_carry;
use crate::cpu::alu::spec_sbc_8;
use crate::cpu::alu::spec_shift_left_8;
use crate::cpu::alu::spec_shift_right_arithmetic_8;
use crate::cpu::alu::spec_shift_right_logic_8;
use crate::cpu::alu::spec_sub_8;
use crate::cpu::alu::spec_swap_nibbles_8;
use crate::cpu::alu::spec_unsigned_byte_to_bcd;
use crate::cpu::alu::spec_xor_8;
use crate::cpu::alu::wrap16;
use crate::cpu::alu::zero_flag;
use crate::cpu::alu::FlagState;
use crate::cpu::interrupt::acknowledged;
use crate::cpu::interrupt::pending_source;
use crate::cpu::interrupt::InterruptSource;
use crate::cpu::opcode::table_entry;
use crate::cpu::opcode::AluOp;
use crate::cpu::opcode::Condition;
use crate::cpu::opcode::Operand8;
use crate::cpu::opcode::Operation;
use crate::cpu::opcode::Reg16;
use crate::cpu::opcode::ShiftOp;
use crate::cpu::register::high_byte_of;
use crate::cpu::register::low_byte_of;
use crate::cpu::register::word_of;
use crate::cpu::register::RegByte;
use crate::cpu::register::RegWord;
use crate::cpu::register::Registers;
use crate::memory::MemoryState;
use vstd::prelude::*;

verus! {

/// Why a step could not execute an instruction.
#[derive(Copy, Clone, PartialEq, Eq, Debug, Structural)]
pub enum CpuError {
    /// The byte at `pc` is no opcode of the primary table.
    UnknownInstruction { opcode: u8, pc: u16 },
    /// A bit operation names a bit above 7. No entry of the opcode tables does.
    InvalidBitIndex(u8),
}

/// The state of the processor itself.
pub struct CpuState {
    pub regs: Registers,
    pub sp: u16,
    pub pc: u16,
    /// The interrupt master enable (IME).
    pub interrupts_enabled: bool,
    /// Whether the processor waits for an interrupt.
    pub halted: bool,
}

/// Where a byte operand was found.
#[derive(Copy, Clone, PartialEq, Eq, Debug, Structural)]
pub enum Place {
    Register(RegByte),
    Address(u16),
    /// A byte of the instruction itself, which cannot be written.
    Literal(u8),
}

/// The processor together with the address space it works on.
pub struct Machine {
    pub cpu: CpuState,
    pub mem: MemoryState,
}

/// The mask with only the bit `index` set.
pub open spec fn bit_mask(index: u8) -> u8 {
    1u8 << index
}

/// A flag byte popped from the stack: its low nibble is forced to zero.
pub open spec fn popped_flags(value: u16) -> u16 {
    (value - value % 16) as u16
}

impl CpuState {
    /// The processor at power-up: 0x01 in A and zero in the other registers, SP
    /// at 0xFFFE, PC at the entry point 0x0100, interrupts off.
    pub open spec fn boot() -> CpuState {
        CpuState {
            regs: Registers::boot(),
            sp: 0xFFFE,
            pc: 0x0100,
            interrupts_enabled: false,
            halted: false,
        }
    }

    /// The low nibble of the flag register is zero.
    pub open spec fn flags_valid(self) -> bool {
        self.regs.f % 16 == 0
    }
}

impl Machine {
    pub open spec fn flags(self) -> u8 {
        self.cpu.regs.f
    }

    pub open spec fn with_flags(self, flags: u8) -> Machine {
        self.with_reg8(RegByte::F, flags)
    }

    pub open spec fn with_regs(self, regs: Registers) -> Machine {
        Machine { cpu: CpuState { regs, ..self.cpu }, ..self }
    }

    pub open spec fn with_reg8(self, reg: RegByte, value: u8) -> Machine {
        self.with_regs(self.cpu.regs.with8(reg, value))
    }

    pub open spec fn with_pair(self, pair: RegWord, value: u16) -> Machine {
        self.with_regs(self.cpu.regs.with16(pair, value))
    }

    pub open spec fn with_pc(self, pc: u16) -> Machine {
        Machine { cpu: CpuState { pc, ..self.cpu }, ..self }
    }

    pub open spec fn with_sp(self, sp: u16) -> Machine {
        Machine { cpu: CpuState { sp, ..self.cpu }, ..self }
    }

    pub open spec fn with_interrupts(self, enabled: bool) -> Machine {
        Machine { cpu: CpuState { interrupts_enabled: enabled, ..self.cpu }, ..self }
    }

    pub open spec fn with_halted(self, halted: bool) -> Machine {
        Machine { cpu: CpuState { halted, ..self.cpu }, ..self }
    }

    /// The address space after a byte was written.
    pub open spec fn with_byte(self, addr: u16, value: u8) -> Machine {
        Machine { mem: self.mem.write(addr, value), ..self }
    }

    /// The word in a 16-bit register.
    pub open spec fn wide(self, reg: Reg16) -> u16 {
        match reg {
            Reg16::Pair(pair) => self.cpu.regs.get16(pair),
            Reg16::Sp => self.cpu.sp,
        }
    }

    pub open spec fn with_wide(self, reg: Reg16, value: u16) -> Machine {
        match reg {
            Reg16::Pair(pair) => self.with_pair(pair, value),
            Reg16::Sp => self.with_sp(value),
        }
    }

    /// The byte at PC.
    pub open spec fn imm8(self) -> u8 {
        self.mem.read(self.cpu.pc)
    }

    /// The word at PC, low byte first.
    pub open spec fn imm16(self) -> u16 {
        word_of(self.mem.read(wrap16(self.cpu.pc + 1)), self.mem.read(self.cpu.pc))
    }

    /// The machine with PC moved on by `count` bytes, wrapping past 0xFFFF.
    pub open spec fn skip(self, count: int) -> Machine {
        self.with_pc(wrap16(self.cpu.pc + count))
    }

    /// Where an operand is found.
    pub open spec fn place(self, operand: Operand8) -> Place {
        match operand {
            Operand8::Reg(reg) => Place::Register(reg),
            Operand8::Indirect(pair) => Place::Address(self.cpu.regs.get16(pair)),
            Operand8::IndirectInc | Operand8::IndirectDec => Place::Address(
                self.cpu.regs.get16(RegWord::Hl),
            ),
            Operand8::Immediate => Place::Literal(self.imm8()),
            Operand8::Direct => Place::Address(self.imm16()),
            Operand8::HighImmediate => Place::Address((0xFF00 + self.imm8()) as u16),
            Operand8::HighC => Place::Address((0xFF00 + self.cpu.regs.c) as u16),
        }
    }

    /// The machine after an operand was found: PC has passed the bytes of the
    /// instruction that the operand takes, and HL has counted where the operand
    /// says so.
    pub open spec fn after_operand(self, operand: Operand8) -> Machine {
        match operand {
            Operand8::IndirectInc => self.with_pair(
                RegWord::Hl,
                wrap16(self.cpu.regs.get16(RegWord::Hl) + 1),
            ),
            Operand8::IndirectDec => self.with_pair(
                RegWord::Hl,
                wrap16(self.cpu.regs.get16(RegWord::Hl) - 1),
            ),
            Operand8::Immediate | Operand8::HighImmediate => self.skip(1),
            Operand8::Direct => self.skip(2),
            _ => self,
        }
    }

    /// The byte at a place.
    pub open spec fn get(self, place: Place) -> u8 {
        match place {
            Place::Register(reg) => self.cpu.regs.get8(reg),
            Place::Address(addr) => self.mem.read(addr),
            Place::Literal(value) => value,
        }
    }

    /// The machine after a byte was put at a place. A byte of the instruction
    /// itself is no place to put one: the machine stays as it is.
    pub open spec fn put(self, place: Place, value: u8) -> Machine {
        match place {
            Place::Register(reg) => self.with_reg8(reg, value),
            Place::Address(addr) => self.with_byte(addr, value),
            Place::Literal(_) => self,
        }
    }

    /// The byte that an operand stands for.
    pub open spec fn load8(self, operand: Operand8) -> u8 {
        self.get(self.place(operand))
    }

    /// The machine after a byte was stored to an operand.
    pub open spec fn store8(self, operand: Operand8, value: u8) -> Machine {
        self.after_operand(operand).put(self.place(operand), value)
    }

    /// The machine after a word was pushed: the high byte goes to SP - 1, then
    /// the low byte to SP - 2, which is the new SP.
    pub open spec fn push16(self, value: u16) -> Machine {
        self.with_byte(wrap16(self.cpu.sp - 1), high_byte_of(value)).with_byte(
            wrap16(self.cpu.sp - 2),
            low_byte_of(value),
        ).with_sp(wrap16(self.cpu.sp - 2))
    }

    /// The word on top of the stack: the low byte at SP, the high byte at SP + 1.
    pub open spec fn top16(self) -> u16 {
        word_of(self.mem.read(wrap16(self.cpu.sp + 1)), self.mem.read(self.cpu.sp))
    }

    /// The machine after the word on top of the stack was taken off.
    pub open spec fn drop16(self) -> Machine {
        self.with_sp(wrap16(self.cpu.sp + 2))
    }

    /// Whether a condition holds of the flags.
    pub open spec fn holds(self, condition: Condition) -> bool {
        match condition {
            Condition::Always => true,
            Condition::NotZero => !zero_flag(self.flags()),
            Condition::Zero => zero_flag(self.flags()),
            Condition::NotCarry => !carry_flag(self.flags()),
            Condition::Carry => carry_flag(self.flags()),
        }
    }

    /// The flag byte and the result of an operation on the accumulator and a
    /// byte. A comparison leaves the accumulator as its result.
    pub open spec fn alu_result(flags: u8, op: AluOp, a: u8, b: u8) -> (u8, u8) {
        match op {
            AluOp::Add => spec_add_8(flags, a, b),
            AluOp::Adc => spec_adc_8(flags, a, b),
            AluOp::Sub => spec_sub_8(flags, a, b),
            AluOp::Sbc => spec_sbc_8(flags, a, b),
            AluOp::And => spec_and_8(flags, a, b),
            AluOp::Xor => spec_xor_8(flags, a, b),
            AluOp::Or => spec_or_8(flags, a, b),
            AluOp::Cp => (spec_sub_8(flags, a, b).0, a),
        }
    }

    /// The flag byte and the result of a rotation or shift of the prefixed
    /// table. Each sets Zero from its result.
    pub open spec fn shift_result(flags: u8, op: ShiftOp, value: u8) -> (u8, u8) {
        match op {
            ShiftOp::Rlc => spec_rotate_left_8(flags, value),
            ShiftOp::Rrc => spec_rotate_right_8(flags, value),
            ShiftOp::Rl => spec_rotate_left_8_carry(flags, value),
            ShiftOp::Rr => spec_rotate_right_8_carry(flags, value),
            ShiftOp::Sla => spec_shift_left_8(flags, value),
            ShiftOp::Sra => spec_shift_right_arithmetic_8(flags, value),
            ShiftOp::Swap => spec_swap_nibbles_8(flags, value),
            ShiftOp::Srl => spec_shift_right_logic_8(flags, value),
        }
    }

    /// The flag byte with Zero as given.
    pub open spec fn with_zero(flags: u8, zero: bool) -> u8 {
        changed_flags(
            flags,
            FlagState::Toggle(zero),
            FlagState::Untouched,
            FlagState::Untouched,
            FlagState::Untouched,
        )
    }

    /// The flag byte that adding a signed byte to SP leaves: the flags of the
    /// addition of the low byte of SP and the byte, with Zero cleared.
    pub open spec fn offset_flags(self, offset: u8) -> u8 {
        Self::with_zero(spec_add_8(self.flags(), low_byte_of(self.cpu.sp), offset).0, false)
    }

    /// SP plus a byte taken as signed, wrapping.
    pub open spec fn sp_plus(self, offset: u8) -> u16 {
        wrap16(self.cpu.sp + signed8(offset))
    }

    /// The machine after the accumulator and the flags were replaced.
    pub open spec fn with_accumulator(self, pair: (u8, u8)) -> Machine {
        self.with_reg8(RegByte::A, pair.1).with_flags(pair.0)
    }

    /// The machine after an operand was replaced by the result of an operation
    /// on it, and the flags by those the operation left.
    pub open spec fn update8(self, operand: Operand8, pair: (u8, u8)) -> Machine {
        self.store8(operand, pair.1).with_flags(pair.0)
    }

    /// The machine after a jump to `target` was taken or, where the condition
    /// does not hold, passed by.
    pub open spec fn jump_if(self, condition: Condition, target: u16) -> Machine {
        if self.holds(condition) {
            self.with_pc(target)
        } else {
            self
        }
    }

    /// The machine after a call of `target`: the address of the next
    /// instruction is pushed, then PC is `target`.
    pub open spec fn call(self, target: u16) -> Machine {
        self.push16(self.cpu.pc).with_pc(target)
    }

    /// The machine after a return: PC is the word taken off the stack.
    pub open spec fn ret(self) -> Machine {
        self.drop16().with_pc(self.top16())
    }

    /// The machine after an operation, where PC has already passed its opcode.
    pub open spec fn execute(self, operation: Operation) -> Machine {
        let a = self.cpu.regs.a;
        let f = self.flags();
        match operation {
            Operation::Nop | Operation::Stop => self,
            Operation::Halt => self.with_halted(true),
            Operation::DisableInterrupts => self.with_interrupts(false),
            Operation::EnableInterrupts => self.with_interrupts(true),
            Operation::Load8(dst, src) => self.after_operand(src).store8(dst, self.load8(src)),
            Operation::Load16(reg) => self.skip(2).with_wide(reg, self.imm16()),
            Operation::StoreSp => self.skip(2).with_byte(
                self.imm16(),
                low_byte_of(self.cpu.sp),
            ).with_byte(wrap16(self.imm16() + 1), high_byte_of(self.cpu.sp)),
            Operation::LoadSpHl => self.with_sp(self.cpu.regs.get16(RegWord::Hl)),
            Operation::LoadHlSpOffset => self.skip(1).with_pair(
                RegWord::Hl,
                self.sp_plus(self.imm8()),
            ).with_flags(self.offset_flags(self.imm8())),
            Operation::AddSpOffset => self.skip(1).with_sp(self.sp_plus(self.imm8())).with_flags(
                self.offset_flags(self.imm8()),
            ),
            Operation::Inc8(operand) => self.update8(operand, spec_inc_8(f, self.load8(operand))),
            Operation::Dec8(operand) => self.update8(operand, spec_dec_8(f, self.load8(operand))),
            Operation::Inc16(reg) => self.with_wide(reg, wrap16(self.wide(reg) + 1)),
            Operation::Dec16(reg) => self.with_wide(reg, wrap16(self.wide(reg) - 1)),
            Operation::AddHl(reg) => {
                let sum = spec_add_16(f, self.cpu.regs.get16(RegWord::Hl), self.wide(reg));
                self.with_pair(RegWord::Hl, sum.1).with_flags(sum.0)
            },
            Operation::Alu(op, operand) => self.after_operand(operand).with_accumulator(
                Self::alu_result(f, op, a, self.load8(operand)),
            ),
            Operation::Rlca => self.with_accumulator(
                (Self::with_zero(spec_rotate_left_8(f, a).0, false), spec_rotate_left_8(f, a).1),
            ),
            Operation::Rrca => self.with_accumulator(
                (Self::with_zero(spec_rotate_right_8(f, a).0, false), spec_rotate_right_8(f, a).1),
            ),
            Operation::Rla => self.with_accumulator(
                (
                    Self::with_zero(spec_rotate_left_8_carry(f, a).0, false),
                    spec_rotate_left_8_carry(f, a).1,
                ),
            ),
            Operation::Rra => self.with_accumulator(
                (
                    Self::with_zero(spec_rotate_right_8_carry(f, a).0, false),
                    spec_rotate_right_8_carry(f, a).1,
                ),
            ),
            Operation::Daa => self.with_accumulator(spec_unsigned_byte_to_bcd(f, a)),
            Operation::Cpl => self.with_accumulator(spec_not_8(f, a)),
            Operation::Scf => self.with_flags(
                changed_flags(
                    f,
                    FlagState::Untouched,
                    FlagState::Clear,
                    FlagState::Clear,
                    FlagState::SetOn,
                ),
            ),
            Operation::Ccf => self.with_flags(
                changed_flags(
                    f,
                    FlagState::Untouched,
                    FlagState::Clear,
                    FlagState::Clear,
                    FlagState::Toggle(!carry_flag(f)),
                ),
            ),
            Operation::JumpRelative(condition) => self.skip(1).jump_if(
                condition,
                wrap16(self.cpu.pc + 1 + signed8(self.imm8())),
            ),
            Operation::Jump(condition) => self.skip(2).jump_if(condition, self.imm16()),
            Operation::JumpHl => self.with_pc(self.cpu.regs.get16(RegWord::Hl)),
            Operation::Call(condition) => if self.holds(condition) {
                self.skip(2).call(self.imm16())
            } else {
                self.skip(2)
            },
            Operation::Return(condition) => if self.holds(condition) {
                self.ret()
            } else {
                self
            },
            Operation::ReturnInterrupt => self.ret().with_interrupts(true),
            Operation::Restart(target) => self.call(target),
            Operation::Push(pair) => self.push16(self.cpu.regs.get16(pair)),
            Operation::Pop(pair) => self.drop16().with_pair(
                pair,
                if pair == RegWord::Af {
                    popped_flags(self.top16())
                } else {
                    self.top16()
                },
            ),
            Operation::Shift(op, operand) => self.update8(
                operand,
                Self::shift_result(f, op, self.load8(operand)),
            ),
            Operation::TestBit(index, operand) => self.after_operand(operand).with_flags(
                changed_flags(
                    f,
                    FlagState::Toggle(self.load8(operand) & bit_mask(index) == 0),
                    FlagState::Clear,
                    FlagState::SetOn,
                    FlagState::Untouched,
                ),
            ),
            Operation::ResetBit(index, operand) => self.store8(
                operand,
                self.load8(operand) & !bit_mask(index),
            ),
            Operation::SetBit(index, operand) => self.store8(
                operand,
                self.load8(operand) | bit_mask(index),
            ),
        }
    }

    /// The source that the processor serves next, if any asks for service and
    /// is listened to.
    pub open spec fn pending(self) -> Option<InterruptSource> {
        pending_source(self.mem.read(0xFF0F), self.mem.read(0xFFFF))
    }

    /// The machine after it began to serve a source: PC is pushed, the
    /// source's bit in the interrupt flags is cleared, PC is the source's
    /// vector and interrupts are off.
    pub open spec fn dispatch(self, source: InterruptSource) -> Machine {
        let pushed = self.push16(self.cpu.pc);
        Machine { mem: acknowledged(pushed.mem, source), ..pushed }.with_pc(
            source.vector(),
        ).with_interrupts(false)
    }

    /// The machine once a pending interrupt has ended its wait.
    pub open spec fn woken(self) -> Machine {
        if self.pending() is Some {
            self.with_halted(false)
        } else {
            self
        }
    }

    /// The first byte of the instruction at PC.
    pub open spec fn opcode(self) -> u8 {
        self.imm8()
    }

    /// Whether the instruction at PC begins with the prefix byte.
    pub open spec fn prefixed(self) -> bool {
        self.opcode() == 0xCB
    }

    /// The operation of the instruction at PC: the entry of the prefixed table
    /// for the byte after a prefix, else that of the primary table.
    pub open spec fn decoded(self) -> Option<Operation> {
        if self.prefixed() {
            table_entry(self.skip(1).imm8(), true)
        } else {
            table_entry(self.opcode(), false)
        }
    }

    /// The machine after the instruction at PC was executed.
    pub open spec fn run(self, operation: Operation) -> Machine {
        self.skip(
            if self.prefixed() {
                2
            } else {
                1
            },
        ).execute(operation)
    }

    /// The machine after one step.
    ///
    /// A waiting processor goes on waiting until a source asks for service and
    /// is listened to. With interrupts on, the pending source of highest
    /// priority is served and no instruction is fetched. Else the instruction
    /// at PC is executed; where its first byte is no opcode, nothing changes.
    pub open spec fn step(self) -> Machine {
        let awake = self.woken();
        if awake.cpu.halted {
            awake
        } else if awake.cpu.interrupts_enabled && awake.pending() is Some {
            awake.dispatch(awake.pending()->0)
        } else {
            match awake.decoded() {
                Some(operation) => awake.run(operation),
                None => self,
            }
        }
    }

    /// What a step reports: the number of instructions it executed, or why it
    /// executed none.
    pub open spec fn step_result(self) -> Result<usize, CpuError> {
        let awake = self.woken();
        if awake.cpu.halted || (awake.cpu.interrupts_enabled && awake.pending() is Some) {
            Ok(0)
        } else if awake.decoded() is Some {
            Ok(1)
        } else {
            Err(CpuError::UnknownInstruction { opcode: awake.opcode(), pc: awake.cpu.pc })
        }
    }
}

/// No change of the condition bits touches the low nibble of the flag byte.
pub proof fn lemma_low_nibble_kept()
    ensures
        forall|flags: u8, z: FlagState, n: FlagState, h: FlagState, c: FlagState|
            #[trigger] changed_flags(flags, z, n, h, c) % 16 == flags % 16,
{
    assert forall|flags: u8, z: FlagState, n: FlagState, h: FlagState, c: FlagState|
        #[trigger] changed_flags(flags, z, n, h, c) % 16 == flags % 16 by {
        crate::cpu::alu::lemma_changed_flags(flags, z, n, h, c);
    }
}

impl Machine {
    /// Finding an operand, and storing to one that is not the flag register,
    /// leaves the flag register as it is.
    pub proof fn lemma_flags_after_operand(self, operand: Operand8, value: u8)
        ensures
            self.after_operand(operand).cpu.regs.f == self.cpu.regs.f,
            operand != Operand8::Reg(RegByte::F) ==> self.store8(operand, value).cpu.regs.f
                == self.cpu.regs.f,
    {
        let found = self.after_operand(operand);
        assert(found.cpu.regs.f == self.cpu.regs.f);
        if operand != Operand8::Reg(RegByte::F) {
            assert(self.place(operand) != Place::Register(RegByte::F));
            assert(found.put(self.place(operand), value).cpu.regs.f == found.cpu.regs.f);
        }
    }

    /// The flags of every operation on the accumulator and of every rotation
    /// and shift keep the low nibble of the flag byte.
    pub proof fn lemma_results_keep_low_nibble(flags: u8, a: u8, b: u8)
        ensures
            forall|op: AluOp| (#[trigger] Self::alu_result(flags, op, a, b)).0 % 16 == flags % 16,
            forall|op: ShiftOp| (#[trigger] Self::shift_result(flags, op, a)).0 % 16 == flags % 16,
    {
        lemma_low_nibble_kept();
    }

    /// An operation whose operands are not the flag register leaves nothing in
    /// the low nibble of the flag register.
    #[verifier::rlimit(100)]
    pub proof fn lemma_execute_keeps_flags_valid(self, operation: Operation)
        requires
            self.cpu.flags_valid(),
            operation.wf(),
        ensures
            self.execute(operation).cpu.flags_valid(),
    {
        lemma_low_nibble_kept();
        let f = self.flags();
        let a = self.cpu.regs.a;
        match operation {
            Operation::Load8(dst, src) => {
                let found = self.after_operand(src);
                self.lemma_flags_after_operand(src, 0);
                found.lemma_flags_after_operand(dst, self.load8(src));
            },
            Operation::Inc8(operand) => {
                self.lemma_flags_after_operand(operand, spec_inc_8(f, self.load8(operand)).1);
            },
            Operation::Dec8(operand) => {
                self.lemma_flags_after_operand(operand, spec_dec_8(f, self.load8(operand)).1);
            },
            Operation::Alu(op, operand) => {
                self.lemma_flags_after_operand(operand, 0);
                Self::lemma_results_keep_low_nibble(f, a, self.load8(operand));
            },
            Operation::Shift(op, operand) => {
                Self::lemma_results_keep_low_nibble(f, self.load8(operand), 0);
                self.lemma_flags_after_operand(
                    operand,
                    Self::shift_result(f, op, self.load8(operand)).1,
                );
            },
            Operation::TestBit(index, operand) => {
                self.lemma_flags_after_operand(operand, 0);
            },
            Operation::ResetBit(index, operand) => {
                self.lemma_flags_after_operand(operand, self.load8(operand) & !bit_mask(index));
            },
            Operation::SetBit(index, operand) => {
                self.lemma_flags_after_operand(operand, self.load8(operand) | bit_mask(index));
            },
            Operation::Pop(pair) => {
                assert(low_byte_of(popped_flags(self.top16())) % 16 == 0);
            },
            _ => {},
        }
    }

    /// No instruction of the tables leaves anything in the low nibble of the
    /// flag register, and no interrupt does.
    #[verifier::rlimit(50)]
    pub proof fn lemma_flags_stay_valid(self)
        requires
            self.cpu.flags_valid(),
        ensures
            self.step().cpu.flags_valid(),
    {
        let awake = self.woken();
        crate::cpu::opcode::lemma_entries_well_formed(awake.opcode(), false);
        crate::cpu::opcode::lemma_entries_well_formed(awake.skip(1).imm8(), true);
        if awake.decoded() is Some {
            let operation = awake.decoded()->0;
            let fetched = awake.skip(
                if awake.prefixed() {
                    2
                } else {
                    1
                },
            );
            fetched.lemma_execute_keeps_flags_valid(operation);
        }
    }
}

impl Machine {
    /// The two addresses that a push writes hold what it wrote, as long as both
    /// writes store their byte.
    pub open spec fn stack_stores(self, value: u16) -> bool {
        &&& MemoryState::stores(wrap16(self.cpu.sp - 1), high_byte_of(value))
        &&& MemoryState::stores(wrap16(self.cpu.sp - 2), low_byte_of(value))
    }

    /// A word that was pushed is the word on top of the stack, and taking it
    /// off leaves SP where it was. This holds where the two bytes of the push
    /// are stored: not where one of them goes to DIV, which any write resets,
    /// or sends the serial data register.
    #[verifier::rlimit(50)]
    pub proof fn lemma_push_then_pop(self, value: u16)
        requires
            self.mem.wf(),
            self.stack_stores(value),
        ensures
            self.push16(value).top16() == value,
            self.push16(value).drop16().cpu.sp == self.cpu.sp,
            self.push16(value).mem.wf(),
            self.push16(value).mem.read(wrap16(self.cpu.sp - 1)) == high_byte_of(value),
            self.push16(value).mem.read(wrap16(self.cpu.sp - 2)) == low_byte_of(value),
    {
        let high_at = wrap16(self.cpu.sp - 1);
        let low_at = wrap16(self.cpu.sp - 2);
        let first = self.mem.write(high_at, high_byte_of(value));
        self.mem.lemma_read_after_write(high_at, high_byte_of(value), low_at);
        first.lemma_read_after_write(low_at, low_byte_of(value), high_at);
        let pushed = self.push16(value);
        assert(pushed.cpu.sp == low_at);
        assert(wrap16(low_at + 1) == high_at);
        assert(pushed.mem.read(low_at) == low_byte_of(value));
        assert(pushed.mem.read(high_at) == high_byte_of(value));
    }

    /// Pushing a register pair and popping the same pair at once gives every
    /// register and SP the value it had, but that the low nibble of F comes
    /// back as zero when the pair is AF; the pair stays in memory below the
    /// old SP, its high byte at the higher address. This holds where the two
    /// bytes of the push are stored.
    #[verifier::rlimit(50)]
    pub proof fn lemma_push_pop_round_trip(self, pair: RegWord)
        requires
            self.mem.wf(),
            self.stack_stores(self.cpu.regs.get16(pair)),
        ensures
            self.execute(Operation::Push(pair)).execute(Operation::Pop(pair)).cpu.regs.get16(pair)
                == if pair == RegWord::Af {
                popped_flags(self.cpu.regs.get16(pair))
            } else {
                self.cpu.regs.get16(pair)
            },
            self.execute(Operation::Push(pair)).execute(Operation::Pop(pair)).cpu.sp
                == self.cpu.sp,
            forall|other: RegWord|
                other != pair ==> self.execute(Operation::Push(pair)).execute(
                    Operation::Pop(pair),
                ).cpu.regs.get16(other) == self.cpu.regs.get16(other),
            pair != RegWord::Af || self.cpu.flags_valid() ==> self.execute(
                Operation::Push(pair),
            ).execute(Operation::Pop(pair)).cpu == self.cpu,
            self.execute(Operation::Push(pair)).execute(Operation::Pop(pair)).mem.read(
                wrap16(self.cpu.sp - 1),
            ) == high_byte_of(self.cpu.regs.get16(pair)),
            self.execute(Operation::Push(pair)).execute(Operation::Pop(pair)).mem.read(
                wrap16(self.cpu.sp - 2),
            ) == low_byte_of(self.cpu.regs.get16(pair)),
    {
        let value = self.cpu.regs.get16(pair);
        self.lemma_push_then_pop(value);
        let pushed = self.execute(Operation::Push(pair));
        assert(pushed == self.push16(value));
        assert(pushed.cpu.regs == self.cpu.regs);
        let restored = if pair == RegWord::Af {
            popped_flags(value)
        } else {
            value
        };
        let popped = pushed.execute(Operation::Pop(pair));
        assert(popped.cpu.regs == self.cpu.regs.with16(pair, restored));
        assert forall|other: RegWord| other != pair implies popped.cpu.regs.get16(other)
            == self.cpu.regs.get16(other) by {
            self.cpu.regs.lemma_read_after_write16(pair, restored, other);
        }
        self.cpu.regs.lemma_read_after_write16(pair, restored, pair);
        if pair != RegWord::Af || self.cpu.flags_valid() {
            assert(restored == value);
            assert(self.cpu.regs.with16(pair, value) == self.cpu.regs);
        }
    }

    /// Whether a write to `addr` stores its byte whatever the byte is, and
    /// touches neither the timer nor the interrupt flags.
    pub open spec fn plain(addr: u16) -> bool {
        !(0xFF04 <= addr <= 0xFF07) && addr != 0xFF02 && addr != 0xFF0F
    }

    /// What serving a source leaves: PC is the vector of the source, interrupts
    /// are off, the registers stay and SP is two below. Where the stack lies in
    /// plain memory, the address the processor came from is on the stack, high
    /// byte at the higher address, and in the interrupt flags the bit of the
    /// source, and only that bit, is cleared.
    #[verifier::rlimit(50)]
    pub proof fn lemma_dispatch(self, source: InterruptSource)
        requires
            self.mem.wf(),
        ensures
            self.dispatch(source).cpu.pc == source.vector(),
            !self.dispatch(source).cpu.interrupts_enabled,
            self.dispatch(source).cpu.halted == self.cpu.halted,
            self.dispatch(source).cpu.regs == self.cpu.regs,
            self.dispatch(source).cpu.sp == wrap16(self.cpu.sp - 2),
            Self::plain(wrap16(self.cpu.sp - 1)) && Self::plain(wrap16(self.cpu.sp - 2)) ==> {
                &&& self.dispatch(source).mem.read(wrap16(self.cpu.sp - 1)) == high_byte_of(
                    self.cpu.pc,
                )
                &&& self.dispatch(source).mem.read(wrap16(self.cpu.sp - 2)) == low_byte_of(
                    self.cpu.pc,
                )
                &&& self.dispatch(source).mem.read(0xFF0F) == source.cleared_in(
                    self.mem.read(0xFF0F),
                )
                &&& !source.set_in(self.dispatch(source).mem.read(0xFF0F))
            },
    {
        let high_at = wrap16(self.cpu.sp - 1);
        let low_at = wrap16(self.cpu.sp - 2);
        if Self::plain(high_at) && Self::plain(low_at) {
            let first = self.mem.write(high_at, high_byte_of(self.cpu.pc));
            let second = first.write(low_at, low_byte_of(self.cpu.pc));
            self.mem.lemma_read_after_write(high_at, high_byte_of(self.cpu.pc), low_at);
            self.mem.lemma_read_after_write(high_at, high_byte_of(self.cpu.pc), 0xFF0F);
            first.lemma_read_after_write(low_at, low_byte_of(self.cpu.pc), high_at);
            first.lemma_read_after_write(low_at, low_byte_of(self.cpu.pc), 0xFF0F);
            let flags = second.read(0xFF0F);
            assert(flags == self.mem.read(0xFF0F));
            second.lemma_read_after_write(0xFF0F, source.cleared_in(flags), high_at);
            second.lemma_read_after_write(0xFF0F, source.cleared_in(flags), low_at);
            assert(self.dispatch(source).mem == second.write(0xFF0F, source.cleared_in(flags)));
            crate::cpu::interrupt::lemma_cleared_bit(source, flags);
        }
    }

    /// With interrupts on and a source pending, a step serves the source and
    /// fetches no opcode: it reports no instruction, and the processor waits no
    /// more.
    pub proof fn lemma_interrupt_is_served(self, source: InterruptSource)
        requires
            self.cpu.interrupts_enabled,
            self.pending() == Some(source),
        ensures
            self.step() == self.with_halted(false).dispatch(source),
            self.step_result() == Ok::<usize, CpuError>(0),
    {
        let awake = self.woken();
        assert(awake == self.with_halted(false));
        assert(awake.pending() == Some(source));
    }

    /// Finding an operand and storing to it move PC past the bytes of the
    /// instruction that the operand takes, and no further.
    pub proof fn lemma_pc_after_operand(self, operand: Operand8, value: u8, flags: u8)
        ensures
            self.after_operand(operand).cpu.pc == wrap16(self.cpu.pc + operand.extra_bytes()),
            self.store8(operand, value).cpu.pc == wrap16(self.cpu.pc + operand.extra_bytes()),
            self.update8(operand, (flags, value)).cpu.pc == wrap16(
                self.cpu.pc + operand.extra_bytes(),
            ),
    {
        let found = self.after_operand(operand);
        assert(found.put(self.place(operand), value).cpu.pc == found.cpu.pc);
    }

    /// An operation that is no jump, call, return or restart, or one whose
    /// condition does not hold, leaves PC after the bytes that follow its
    /// opcode.
    #[verifier::rlimit(100)]
    pub proof fn lemma_pc_after_operation(self, operation: Operation)
        requires
            operation.wf(),
            operation.branches_on() matches Some(condition) ==> !self.holds(condition),
        ensures
            self.execute(operation).cpu.pc == wrap16(self.cpu.pc + operation.operand_bytes()),
    {
        let f = self.flags();
        match operation {
            Operation::Load8(dst, src) => {
                let found = self.after_operand(src);
                self.lemma_pc_after_operand(src, 0, 0);
                found.lemma_pc_after_operand(dst, self.load8(src), 0);
            },
            Operation::Inc8(operand) => {
                let result = spec_inc_8(f, self.load8(operand));
                self.lemma_pc_after_operand(operand, result.1, result.0);
            },
            Operation::Dec8(operand) => {
                let result = spec_dec_8(f, self.load8(operand));
                self.lemma_pc_after_operand(operand, result.1, result.0);
            },
            Operation::Alu(op, operand) => {
                self.lemma_pc_after_operand(operand, 0, 0);
                let found = self.after_operand(operand);
                let result = Self::alu_result(f, op, self.cpu.regs.a, self.load8(operand));
                assert(found.with_accumulator(result).cpu.pc == found.cpu.pc);
            },
            Operation::Shift(op, operand) => {
                let result = Self::shift_result(f, op, self.load8(operand));
                self.lemma_pc_after_operand(operand, result.1, result.0);
            },
            Operation::TestBit(index, operand) => {
                self.lemma_pc_after_operand(operand, 0, 0);
            },
            Operation::ResetBit(index, operand) => {
                self.lemma_pc_after_operand(operand, self.load8(operand) & !bit_mask(index), 0);
            },
            Operation::SetBit(index, operand) => {
                self.lemma_pc_after_operand(operand, self.load8(operand) | bit_mask(index), 0);
            },
            Operation::AddHl(reg) => {
                let sum = spec_add_16(f, self.cpu.regs.get16(RegWord::Hl), self.wide(reg));
                assert(self.with_pair(RegWord::Hl, sum.1).with_flags(sum.0).cpu.pc == self.cpu.pc);
            },
            Operation::Rlca | Operation::Rrca | Operation::Rla | Operation::Rra | Operation::Daa
            | Operation::Cpl => {
                assert(forall|pair: (u8, u8)|
                    (#[trigger] self.with_accumulator(pair)).cpu.pc == self.cpu.pc);
            },
            Operation::Scf | Operation::Ccf => {
                assert(forall|flags: u8| (#[trigger] self.with_flags(flags)).cpu.pc == self.cpu.pc);
            },
            Operation::LoadHlSpOffset | Operation::AddSpOffset => {
                assert(forall|machine: Machine, flags: u8|
                    (#[trigger] machine.with_flags(flags)).cpu.pc == machine.cpu.pc);
            },
            _ => {},
        }
    }

    /// The machine with PC behind the opcode of the instruction at PC, and
    /// behind the prefix where there is one.
    pub open spec fn fetched(self) -> Machine {
        self.skip(
            if self.prefixed() {
                2
            } else {
                1
            },
        )
    }

    /// A step of a processor that neither waits nor serves an interrupt
    /// executes the instruction at PC: it reports one instruction, and the
    /// machine is the one that the operation leaves once PC is behind its
    /// opcode. The operation is an entry of the tables: well formed, one to
    /// three bytes long, and of the prefixed table exactly after a prefix.
    #[verifier::rlimit(100)]
    pub proof fn lemma_step_executes(self, operation: Operation)
        requires
            !self.cpu.halted,
            !(self.cpu.interrupts_enabled && self.pending() is Some),
            self.decoded() == Some(operation),
        ensures
            self.step_result() == Ok::<usize, CpuError>(1),
            self.step() == self.fetched().execute(operation),
            operation.wf(),
            operation.prefixed() == self.prefixed(),
            1 <= operation.size() <= 3,
    {
        crate::cpu::opcode::lemma_entries_well_formed(self.opcode(), false);
        crate::cpu::opcode::lemma_entries_well_formed(self.skip(1).imm8(), true);
        assert(self.woken() == self);
        assert(self.run(operation) == self.fetched().execute(operation));
    }

    /// A step that executes an instruction which is no jump, call, return or
    /// restart, or one whose condition does not hold, leaves PC after the
    /// instruction: further on by the size of the instruction.
    #[verifier::rlimit(50)]
    pub proof fn lemma_pc_after_step(self, operation: Operation)
        requires
            !self.cpu.halted,
            !(self.cpu.interrupts_enabled && self.pending() is Some),
            self.decoded() == Some(operation),
            operation.branches_on() matches Some(condition) ==> !self.holds(condition),
        ensures
            self.step_result() == Ok::<usize, CpuError>(1),
            self.step().cpu.pc == wrap16(self.cpu.pc + operation.size()),
            1 <= operation.size() <= 3,
    {
        self.lemma_step_executes(operation);
        let fetched = self.fetched();
        let after = fetched.execute(operation).cpu.pc;
        assert(fetched.cpu.regs == self.cpu.regs);
        assert(forall|condition: Condition|
            #[trigger] fetched.holds(condition) == self.holds(condition));
        fetched.lemma_pc_after_operation(operation);
        let opcode_bytes = if operation.prefixed() {
            2int
        } else {
            1int
        };
        assert(fetched.cpu.pc == wrap16(self.cpu.pc + opcode_bytes));
        assert(after == wrap16(fetched.cpu.pc + operation.operand_bytes()));
        assert(operation.size() == opcode_bytes + operation.operand_bytes());
        assert(0 <= operation.operand_bytes() <= 2);
        assert(after == wrap16(self.cpu.pc + operation.size()));
    }
}

} // verus!
