use gboyrust::cpu::alu::adc_8;
use gboyrust::cpu::alu::add_8;
use gboyrust::cpu::alu::and_8;
use gboyrust::cpu::alu::cp_8;
use gboyrust::cpu::alu::or_8;
use gboyrust::cpu::alu::sbc_8;
use gboyrust::cpu::alu::sub_8;
use gboyrust::cpu::alu::xor_8;
use gboyrust::cpu::interrupt::InterruptController;
use gboyrust::cpu::interrupt::InterruptSource;
use gboyrust::cpu::machine::CpuError;
use gboyrust::cpu::opcode::decode_prefixed;
use gboyrust::cpu::opcode::decode_primary;
use gboyrust::cpu::opcode::AluOp;
use gboyrust::cpu::opcode::Condition;
use gboyrust::cpu::opcode::OpcodeTable;
use gboyrust::cpu::opcode::Operand8;
use gboyrust::cpu::opcode::Operation;
use gboyrust::cpu::opcode::Reg16;
use gboyrust::cpu::opcode::ShiftOp;
use gboyrust::cpu::register::RegByte;
use gboyrust::cpu::register::RegWord;
use gboyrust::cpu::Cpu;
use gboyrust::memory::Memory;

fn machine_with(program: &[u8]) -> (Cpu, Memory) {
    let mut memory = Memory::default();
    for (i, byte) in program.iter().enumerate() {
        memory.write(0x0100 + i as u16, *byte);
    }
    (Cpu::new(), memory)
}

#[test]
fn boot_state_is_as_documented() {
    let cpu = Cpu::default();
    assert_eq!(cpu.pc, 0x0100);
    assert_eq!(cpu.sp, 0xFFFE);
    assert_eq!(cpu.regs.a, 0x01);
    assert_eq!(cpu.regs.f, 0x00);
    assert_eq!(cpu.regs.read_value16_from(RegWord::Bc), 0x0000);
    assert_eq!(cpu.regs.read_value16_from(RegWord::De), 0x0000);
    assert_eq!(cpu.regs.read_value16_from(RegWord::Hl), 0x0000);
    assert_eq!(cpu.interrupts_enabled, false);
    assert_eq!(cpu.halted, false);
}

#[test]
fn load_add_and_decimal_adjust_end_to_end() {
    let (mut cpu, mut memory) = machine_with(&[0x3E, 0x05, 0xC6, 0x03, 0x27]);
    let start = cpu.pc;
    assert_eq!(cpu.cycle(&mut memory), Ok(1));
    assert_eq!(cpu.regs.a, 0x05);
    assert_eq!(cpu.pc, start + 2);
    assert_eq!(cpu.cycle(&mut memory), Ok(1));
    assert_eq!(cpu.regs.a, 0x08);
    assert_eq!(cpu.regs.f, 0x00);
    // The two instructions with an operand are four bytes long.
    assert_eq!(cpu.pc, start + 4);
    assert_eq!(cpu.cycle(&mut memory), Ok(1));
    assert_eq!(cpu.regs.a, 0x08);
    assert_eq!(cpu.regs.f & 0x80, 0);
    assert_eq!(cpu.regs.f & 0x40, 0);
    assert_eq!(cpu.regs.f & 0x20, 0);
    assert_eq!(cpu.regs.f & 0x10, 0);
    assert_eq!(cpu.pc, start + 5);
}

#[test]
fn a_pending_timer_interrupt_is_served_without_a_fetch() {
    let (mut cpu, mut memory) = machine_with(&[0x3E, 0x05]);
    cpu.pc = 0x1234;
    cpu.sp = 0xD000;
    cpu.interrupts_enabled = true;
    memory.write(0x1234, 0x3E);
    memory.write(0x1235, 0x77);
    memory.write(0xFF0F, 0x04);
    memory.write(0xFFFF, 0x04);
    assert_eq!(cpu.cycle(&mut memory), Ok(0));
    assert_eq!(cpu.pc, 0x0050);
    assert_eq!(cpu.sp, 0xCFFE);
    assert_eq!(memory.read(0xCFFF), 0x12);
    assert_eq!(memory.read(0xCFFE), 0x34);
    assert_eq!(cpu.interrupts_enabled, false);
    assert_eq!(memory.read(0xFF0F) & 0x04, 0x00);
    assert_eq!(memory.read(0xFF0F), 0x00);
    // No opcode was fetched: the accumulator is as it was.
    assert_eq!(cpu.regs.a, 0x01);
}

#[test]
fn interrupts_are_served_by_priority_and_only_if_enabled() {
    let (mut cpu, mut memory) = machine_with(&[0x00, 0x00]);
    memory.write(0xFF0F, 0x1F);
    memory.write(0xFFFF, 0x1A);
    assert_eq!(InterruptController::pending(&memory), Some(InterruptSource::LcdStat));
    // Interrupts are off: the instruction is executed.
    assert_eq!(cpu.cycle(&mut memory), Ok(1));
    assert_eq!(cpu.pc, 0x0101);
    cpu.interrupts_enabled = true;
    assert_eq!(cpu.cycle(&mut memory), Ok(0));
    assert_eq!(cpu.pc, 0x0048);
    assert_eq!(memory.read(0xFF0F), 0x1D);
    assert_eq!(memory.read(0xFFFD), 0x01);
    assert_eq!(memory.read(0xFFFC), 0x01);
    assert_eq!(InterruptController::pending(&memory), Some(InterruptSource::Serial));
    InterruptController::acknowledge(&mut memory, InterruptSource::Serial);
    assert_eq!(memory.read(0xFF0F), 0x15);
    assert_eq!(InterruptController::pending(&memory), Some(InterruptSource::Joypad));
    InterruptController::acknowledge(&mut memory, InterruptSource::Joypad);
    assert_eq!(InterruptController::pending(&memory), None);
    assert_eq!(InterruptController::vector_for(InterruptSource::VBlank), 0x0040);
    assert_eq!(InterruptController::vector_for(InterruptSource::LcdStat), 0x0048);
    assert_eq!(InterruptController::vector_for(InterruptSource::Timer), 0x0050);
    assert_eq!(InterruptController::vector_for(InterruptSource::Serial), 0x0058);
    assert_eq!(InterruptController::vector_for(InterruptSource::Joypad), 0x0060);
}

#[test]
fn push_then_pop_restores_a_pair() {
    // PUSH BC; POP BC
    let (mut cpu, mut memory) = machine_with(&[0xC5, 0xC1]);
    cpu.regs.write_value16_to(RegWord::Bc, 0x1234);
    assert_eq!(cpu.cycle(&mut memory), Ok(1));
    assert_eq!(cpu.sp, 0xFFFC);
    assert_eq!(memory.read(0xFFFD), 0x12);
    assert_eq!(memory.read(0xFFFC), 0x34);
    cpu.regs.write_value16_to(RegWord::Bc, 0x0000);
    assert_eq!(cpu.cycle(&mut memory), Ok(1));
    assert_eq!(cpu.regs.read_value16_from(RegWord::Bc), 0x1234);
    assert_eq!(cpu.sp, 0xFFFE);
}

#[test]
fn pop_af_clears_the_low_nibble_of_the_flags() {
    // PUSH AF; POP AF
    let (mut cpu, mut memory) = machine_with(&[0xF5, 0xF1]);
    cpu.regs.a = 0x9C;
    cpu.regs.f = 0xBF;
    assert_eq!(cpu.cycle(&mut memory), Ok(1));
    assert_eq!(memory.read(0xFFFC), 0xBF);
    assert_eq!(cpu.cycle(&mut memory), Ok(1));
    assert_eq!(cpu.regs.a, 0x9C);
    assert_eq!(cpu.regs.f, 0xB0);
    assert_eq!(cpu.sp, 0xFFFE);
}

#[test]
fn a_push_onto_the_divider_is_not_read_back() {
    // PUSH BC; POP BC with the low byte going to DIV at 0xFF04.
    let (mut cpu, mut memory) = machine_with(&[0xC5, 0xC1]);
    cpu.sp = 0xFF06;
    cpu.regs.write_value16_to(RegWord::Bc, 0x1234);
    assert_eq!(cpu.cycle(&mut memory), Ok(1));
    assert_eq!(cpu.cycle(&mut memory), Ok(1));
    assert_eq!(cpu.regs.read_value16_from(RegWord::Bc), 0x1200);
    assert_eq!(cpu.sp, 0xFF06);
}

#[test]
fn an_unknown_opcode_is_reported_and_changes_nothing() {
    for opcode in [0xD3u8, 0xDB, 0xDD, 0xE3, 0xE4, 0xEB, 0xEC, 0xED, 0xF4, 0xFC, 0xFD] {
        let (mut cpu, mut memory) = machine_with(&[0x00, opcode, 0x00]);
        assert_eq!(cpu.cycle(&mut memory), Ok(1));
        assert_eq!(
            cpu.cycle(&mut memory),
            Err(CpuError::UnknownInstruction { opcode, pc: 0x0101 })
        );
        assert_eq!(cpu.pc, 0x0101);
        assert_eq!(cpu.sp, 0xFFFE);
        assert_eq!(cpu.regs.a, 0x01);
        // The caller can stop here; a further step reports the same.
        assert_eq!(
            cpu.cycle(&mut memory),
            Err(CpuError::UnknownInstruction { opcode, pc: 0x0101 })
        );
    }
}

#[test]
fn a_bit_index_above_seven_is_refused() {
    let (mut cpu, mut memory) = machine_with(&[]);
    let result = cpu.execute(&mut memory, Operation::SetBit(8, Operand8::Reg(RegByte::B)));
    assert_eq!(result, Err(CpuError::InvalidBitIndex(8)));
    assert_eq!(cpu.regs.b, 0x00);
    let result = cpu.execute(&mut memory, Operation::TestBit(200, Operand8::Reg(RegByte::B)));
    assert_eq!(result, Err(CpuError::InvalidBitIndex(200)));
    let result = cpu.execute(&mut memory, Operation::ResetBit(9, Operand8::Reg(RegByte::B)));
    assert_eq!(result, Err(CpuError::InvalidBitIndex(9)));
    let result = cpu.execute(&mut memory, Operation::SetBit(7, Operand8::Reg(RegByte::B)));
    assert_eq!(result, Ok(()));
    assert_eq!(cpu.regs.b, 0x80);
}

#[test]
fn relative_jumps_take_a_signed_offset() {
    // JR -2 jumps back onto itself.
    let (mut cpu, mut memory) = machine_with(&[0x18, 0xFE]);
    assert_eq!(cpu.cycle(&mut memory), Ok(1));
    assert_eq!(cpu.pc, 0x0100);
    // JR NZ,+3 is taken while Zero is clear and passed by while it is set.
    let (mut cpu, mut memory) = machine_with(&[0x20, 0x03]);
    assert_eq!(cpu.cycle(&mut memory), Ok(1));
    assert_eq!(cpu.pc, 0x0105);
    let (mut cpu, mut memory) = machine_with(&[0x20, 0x03]);
    cpu.regs.f = 0x80;
    assert_eq!(cpu.cycle(&mut memory), Ok(1));
    assert_eq!(cpu.pc, 0x0102);
    // JR C / JR NC / JR Z
    let (mut cpu, mut memory) = machine_with(&[0x38, 0x10, 0x30, 0x10]);
    assert_eq!(cpu.cycle(&mut memory), Ok(1));
    assert_eq!(cpu.pc, 0x0102);
    assert_eq!(cpu.cycle(&mut memory), Ok(1));
    assert_eq!(cpu.pc, 0x0114);
}

#[test]
fn call_pushes_the_address_after_its_operand_and_ret_comes_back() {
    // CALL 0x0200 ... at 0x0200: RET
    let (mut cpu, mut memory) = machine_with(&[0xCD, 0x00, 0x02, 0x00]);
    memory.write(0x0200, 0xC9);
    assert_eq!(cpu.cycle(&mut memory), Ok(1));
    assert_eq!(cpu.pc, 0x0200);
    assert_eq!(cpu.sp, 0xFFFC);
    assert_eq!(memory.read(0xFFFD), 0x01);
    assert_eq!(memory.read(0xFFFC), 0x03);
    assert_eq!(cpu.cycle(&mut memory), Ok(1));
    assert_eq!(cpu.pc, 0x0103);
    assert_eq!(cpu.sp, 0xFFFE);
}

#[test]
fn conditional_calls_and_returns_test_one_flag() {
    // CALL Z,0x0200 with Zero clear is passed by.
    let (mut cpu, mut memory) = machine_with(&[0xCC, 0x00, 0x02, 0xC8, 0xD4, 0x00, 0x03]);
    assert_eq!(cpu.cycle(&mut memory), Ok(1));
    assert_eq!(cpu.pc, 0x0103);
    assert_eq!(cpu.sp, 0xFFFE);
    // RET Z with Zero clear is passed by.
    assert_eq!(cpu.cycle(&mut memory), Ok(1));
    assert_eq!(cpu.pc, 0x0104);
    assert_eq!(cpu.sp, 0xFFFE);
    // CALL NC,0x0300 with Carry clear is taken.
    assert_eq!(cpu.cycle(&mut memory), Ok(1));
    assert_eq!(cpu.pc, 0x0300);
    assert_eq!(cpu.sp, 0xFFFC);
    assert_eq!(memory.read(0xFFFD), 0x01);
    assert_eq!(memory.read(0xFFFC), 0x07);
}

#[test]
fn rst_and_reti() {
    // RST 0x28 ... at 0x0028: RETI
    let (mut cpu, mut memory) = machine_with(&[0xEF]);
    memory.write(0x0028, 0xD9);
    assert_eq!(cpu.cycle(&mut memory), Ok(1));
    assert_eq!(cpu.pc, 0x0028);
    assert_eq!(memory.read(0xFFFD), 0x01);
    assert_eq!(memory.read(0xFFFC), 0x01);
    assert_eq!(cpu.interrupts_enabled, false);
    assert_eq!(cpu.cycle(&mut memory), Ok(1));
    assert_eq!(cpu.pc, 0x0101);
    assert_eq!(cpu.interrupts_enabled, true);
}

#[test]
fn ei_and_di_switch_interrupts_at_once() {
    let (mut cpu, mut memory) = machine_with(&[0xFB, 0xF3]);
    assert_eq!(cpu.cycle(&mut memory), Ok(1));
    assert_eq!(cpu.interrupts_enabled, true);
    assert_eq!(cpu.cycle(&mut memory), Ok(1));
    assert_eq!(cpu.interrupts_enabled, false);
}

#[test]
fn halt_waits_for_an_interrupt() {
    let (mut cpu, mut memory) = machine_with(&[0x76, 0x3C]);
    assert_eq!(cpu.cycle(&mut memory), Ok(1));
    assert_eq!(cpu.halted, true);
    assert_eq!(cpu.pc, 0x0101);
    assert_eq!(cpu.cycle(&mut memory), Ok(0));
    assert_eq!(cpu.cycle(&mut memory), Ok(0));
    assert_eq!(cpu.pc, 0x0101);
    // A source asks for service and is listened to: the processor goes on,
    // and with interrupts off it goes on with the next instruction.
    memory.write(0xFF0F, 0x04);
    memory.write(0xFFFF, 0x04);
    assert_eq!(cpu.cycle(&mut memory), Ok(1));
    assert_eq!(cpu.halted, false);
    assert_eq!(cpu.regs.a, 0x02);
    assert_eq!(cpu.pc, 0x0102);
}

#[test]
fn loads_through_memory_and_hl_counting() {
    // LD HL,0xC000; LD (HL+),A; LD (HL-),A; LD A,(HL+); LD B,(HL); LD (HL),0x7E
    let (mut cpu, mut memory) =
        machine_with(&[0x21, 0x00, 0xC0, 0x22, 0x32, 0x2A, 0x46, 0x36, 0x7E]);
    cpu.regs.a = 0x5A;
    assert_eq!(cpu.cycle(&mut memory), Ok(1));
    assert_eq!(cpu.regs.read_value16_from(RegWord::Hl), 0xC000);
    assert_eq!(cpu.cycle(&mut memory), Ok(1));
    assert_eq!(memory.read(0xC000), 0x5A);
    assert_eq!(cpu.regs.read_value16_from(RegWord::Hl), 0xC001);
    cpu.regs.a = 0xA5;
    assert_eq!(cpu.cycle(&mut memory), Ok(1));
    assert_eq!(memory.read(0xC001), 0xA5);
    assert_eq!(cpu.regs.read_value16_from(RegWord::Hl), 0xC000);
    assert_eq!(cpu.cycle(&mut memory), Ok(1));
    assert_eq!(cpu.regs.a, 0x5A);
    assert_eq!(cpu.regs.read_value16_from(RegWord::Hl), 0xC001);
    assert_eq!(cpu.cycle(&mut memory), Ok(1));
    assert_eq!(cpu.regs.b, 0xA5);
    assert_eq!(cpu.cycle(&mut memory), Ok(1));
    assert_eq!(memory.read(0xC001), 0x7E);
    assert_eq!(cpu.pc, 0x0109);
}

#[test]
fn loads_to_and_from_the_high_page_and_fixed_addresses() {
    // LDH (0x80),A; LD C,0x81; LD (C),A; LDH A,(0x81); LD (0xC123),A; LD A,(0xC123)
    let (mut cpu, mut memory) = machine_with(&[
        0xE0, 0x80, 0x0E, 0x81, 0xE2, 0xF0, 0x81, 0xEA, 0x23, 0xC1, 0xFA, 0x23, 0xC1, 0xF2,
    ]);
    cpu.regs.a = 0x42;
    assert_eq!(cpu.cycle(&mut memory), Ok(1));
    assert_eq!(memory.read(0xFF80), 0x42);
    assert_eq!(cpu.cycle(&mut memory), Ok(1));
    cpu.regs.a = 0x43;
    assert_eq!(cpu.cycle(&mut memory), Ok(1));
    assert_eq!(memory.read(0xFF81), 0x43);
    cpu.regs.a = 0x00;
    assert_eq!(cpu.cycle(&mut memory), Ok(1));
    assert_eq!(cpu.regs.a, 0x43);
    assert_eq!(cpu.cycle(&mut memory), Ok(1));
    assert_eq!(memory.read(0xC123), 0x43);
    cpu.regs.a = 0x00;
    assert_eq!(cpu.cycle(&mut memory), Ok(1));
    assert_eq!(cpu.regs.a, 0x43);
    cpu.regs.a = 0x00;
    assert_eq!(cpu.cycle(&mut memory), Ok(1));
    assert_eq!(cpu.regs.a, 0x43);
    assert_eq!(cpu.pc, 0x010E);
}

#[test]
fn stack_pointer_loads_and_offsets() {
    // LD SP,0xFFF8; LD HL,SP+2; ADD SP,-8; LD (0xC100),SP; LD SP,HL
    let (mut cpu, mut memory) =
        machine_with(&[0x31, 0xF8, 0xFF, 0xF8, 0x02, 0xE8, 0xF8, 0x08, 0x00, 0xC1, 0xF9]);
    cpu.regs.f = 0xF0;
    assert_eq!(cpu.cycle(&mut memory), Ok(1));
    assert_eq!(cpu.sp, 0xFFF8);
    assert_eq!(cpu.cycle(&mut memory), Ok(1));
    assert_eq!(cpu.regs.read_value16_from(RegWord::Hl), 0xFFFA);
    assert_eq!(cpu.regs.f, 0x00);
    assert_eq!(cpu.cycle(&mut memory), Ok(1));
    assert_eq!(cpu.sp, 0xFFF0);
    // 0xF8 + 0xF8 carries out of bit 3 and out of bit 7.
    assert_eq!(cpu.regs.f, 0x30);
    assert_eq!(cpu.cycle(&mut memory), Ok(1));
    assert_eq!(memory.read(0xC100), 0xF0);
    assert_eq!(memory.read(0xC101), 0xFF);
    assert_eq!(cpu.cycle(&mut memory), Ok(1));
    assert_eq!(cpu.sp, 0xFFFA);
    assert_eq!(cpu.pc, 0x010B);
}

#[test]
fn arithmetic_on_registers_memory_and_words() {
    // LD HL,0xC000; LD (HL),0xFF; INC (HL); DEC B; INC BC; DEC DE; ADD HL,HL; ADD A,(HL)
    let (mut cpu, mut memory) = machine_with(&[
        0x21, 0x00, 0xC0, 0x36, 0xFF, 0x34, 0x05, 0x03, 0x1B, 0x29, 0x86, 0x33, 0x3B, 0x39,
    ]);
    assert_eq!(cpu.cycle(&mut memory), Ok(1));
    assert_eq!(cpu.cycle(&mut memory), Ok(1));
    assert_eq!(cpu.cycle(&mut memory), Ok(1));
    assert_eq!(memory.read(0xC000), 0x00);
    assert_eq!(cpu.regs.f, 0xA0);
    assert_eq!(cpu.cycle(&mut memory), Ok(1));
    assert_eq!(cpu.regs.b, 0xFF);
    assert_eq!(cpu.regs.f, 0x60);
    assert_eq!(cpu.cycle(&mut memory), Ok(1));
    assert_eq!(cpu.regs.read_value16_from(RegWord::Bc), 0xFF01);
    assert_eq!(cpu.cycle(&mut memory), Ok(1));
    assert_eq!(cpu.regs.read_value16_from(RegWord::De), 0xFFFF);
    assert_eq!(cpu.regs.f, 0x60);
    assert_eq!(cpu.cycle(&mut memory), Ok(1));
    assert_eq!(cpu.regs.read_value16_from(RegWord::Hl), 0x8000);
    assert_eq!(cpu.regs.f, 0x10);
    memory.write(0x8000, 0xFF);
    assert_eq!(cpu.cycle(&mut memory), Ok(1));
    assert_eq!(cpu.regs.a, 0x00);
    assert_eq!(cpu.regs.f, 0xB0);
    assert_eq!(cpu.cycle(&mut memory), Ok(1));
    assert_eq!(cpu.sp, 0xFFFF);
    assert_eq!(cpu.cycle(&mut memory), Ok(1));
    assert_eq!(cpu.sp, 0xFFFE);
    assert_eq!(cpu.cycle(&mut memory), Ok(1));
    assert_eq!(cpu.regs.read_value16_from(RegWord::Hl), 0x7FFE);
    assert_eq!(cpu.regs.f, 0x90);
}

#[test]
fn accumulator_rotations_clear_zero_and_prefixed_ones_set_it() {
    // RLCA; RRCA; RLA; RRA with A = 0
    let (mut cpu, mut memory) = machine_with(&[0x07, 0x0F, 0x17, 0x1F]);
    cpu.regs.a = 0x00;
    for _ in 0..4 {
        assert_eq!(cpu.cycle(&mut memory), Ok(1));
        assert_eq!(cpu.regs.a, 0x00);
        assert_eq!(cpu.regs.f, 0x00);
    }
    // RLC B; RRC B; RL B; RR B; SLA B; SRA B; SWAP B; SRL B with B = 0
    let (mut cpu, mut memory) = machine_with(&[
        0xCB, 0x00, 0xCB, 0x08, 0xCB, 0x10, 0xCB, 0x18, 0xCB, 0x20, 0xCB, 0x28, 0xCB, 0x30, 0xCB,
        0x38,
    ]);
    for step in 0..8u16 {
        assert_eq!(cpu.cycle(&mut memory), Ok(1));
        assert_eq!(cpu.regs.b, 0x00);
        assert_eq!(cpu.regs.f, 0x80);
        assert_eq!(cpu.pc, 0x0102 + 2 * step);
    }
    // RLCA with A = 0x85; RR C with C = 0x01 and Carry set.
    let (mut cpu, mut memory) = machine_with(&[0x07, 0xCB, 0x19]);
    cpu.regs.a = 0x85;
    cpu.regs.c = 0x01;
    assert_eq!(cpu.cycle(&mut memory), Ok(1));
    assert_eq!(cpu.regs.a, 0x0B);
    assert_eq!(cpu.regs.f, 0x10);
    assert_eq!(cpu.cycle(&mut memory), Ok(1));
    assert_eq!(cpu.regs.c, 0x80);
    assert_eq!(cpu.regs.f, 0x10);
}

#[test]
fn bit_operations_on_registers_and_memory() {
    // LD HL,0xC000; SET 7,(HL); BIT 7,(HL); RES 7,(HL); BIT 7,(HL); SET 0,A; RES 0,A
    let (mut cpu, mut memory) = machine_with(&[
        0x21, 0x00, 0xC0, 0xCB, 0xFE, 0xCB, 0x7E, 0xCB, 0xBE, 0xCB, 0x7E, 0xCB, 0xC7, 0xCB, 0x87,
    ]);
    cpu.regs.f = 0x10;
    cpu.regs.a = 0x00;
    assert_eq!(cpu.cycle(&mut memory), Ok(1));
    assert_eq!(cpu.cycle(&mut memory), Ok(1));
    assert_eq!(memory.read(0xC000), 0x80);
    assert_eq!(cpu.regs.f, 0x10);
    assert_eq!(cpu.cycle(&mut memory), Ok(1));
    assert_eq!(cpu.regs.f, 0x30);
    assert_eq!(cpu.cycle(&mut memory), Ok(1));
    assert_eq!(memory.read(0xC000), 0x00);
    assert_eq!(cpu.cycle(&mut memory), Ok(1));
    assert_eq!(cpu.regs.f, 0xB0);
    assert_eq!(cpu.cycle(&mut memory), Ok(1));
    assert_eq!(cpu.regs.a, 0x01);
    assert_eq!(cpu.cycle(&mut memory), Ok(1));
    assert_eq!(cpu.regs.a, 0x00);
    assert_eq!(cpu.pc, 0x010F);
}

#[test]
fn flag_instructions_and_compare() {
    // SCF; CCF; CCF; CPL; CP 0x01
    let (mut cpu, mut memory) = machine_with(&[0x37, 0x3F, 0x3F, 0x2F, 0xFE, 0xFE, 0xB8]);
    cpu.regs.f = 0xE0;
    assert_eq!(cpu.cycle(&mut memory), Ok(1));
    assert_eq!(cpu.regs.f, 0x90);
    assert_eq!(cpu.cycle(&mut memory), Ok(1));
    assert_eq!(cpu.regs.f, 0x80);
    assert_eq!(cpu.cycle(&mut memory), Ok(1));
    assert_eq!(cpu.regs.f, 0x90);
    assert_eq!(cpu.cycle(&mut memory), Ok(1));
    assert_eq!(cpu.regs.a, 0xFE);
    assert_eq!(cpu.regs.f, 0xF0);
    assert_eq!(cpu.cycle(&mut memory), Ok(1));
    assert_eq!(cpu.regs.a, 0xFE);
    assert_eq!(cpu.regs.f, 0xC0);
    // CP B with B = 0 leaves A and clears Zero.
    assert_eq!(cpu.cycle(&mut memory), Ok(1));
    assert_eq!(cpu.regs.a, 0xFE);
    assert_eq!(cpu.regs.f, 0x40);
}

#[test]
fn jumps_to_fixed_addresses_and_through_hl() {
    // JP 0x0200; at 0x0200: JP C,0x0300 (passed by); LD HL,0x0400; JP (HL)
    let (mut cpu, mut memory) = machine_with(&[0xC3, 0x00, 0x02]);
    for (i, byte) in [0xDAu8, 0x00, 0x03, 0x21, 0x00, 0x04, 0xE9].iter().enumerate() {
        memory.write(0x0200 + i as u16, *byte);
    }
    assert_eq!(cpu.cycle(&mut memory), Ok(1));
    assert_eq!(cpu.pc, 0x0200);
    assert_eq!(cpu.cycle(&mut memory), Ok(1));
    assert_eq!(cpu.pc, 0x0203);
    assert_eq!(cpu.cycle(&mut memory), Ok(1));
    assert_eq!(cpu.cycle(&mut memory), Ok(1));
    assert_eq!(cpu.pc, 0x0400);
}

#[test]
fn the_flag_nibble_stays_zero_over_a_program() {
    let program = [
        0x3E, 0xFF, 0xC6, 0x01, 0xF5, 0xC1, 0x87, 0x27, 0xCB, 0x11, 0xF1, 0x8F, 0x9F, 0x2F, 0x3F,
        0x07, 0x34, 0x35, 0xE8, 0x7F,
    ];
    let (mut cpu, mut memory) = machine_with(&program);
    cpu.regs.write_value16_to(RegWord::Hl, 0xC000);
    while (cpu.pc as usize) < 0x0100 + program.len() {
        assert_eq!(cpu.cycle(&mut memory), Ok(1));
        assert_eq!(cpu.regs.f & 0x0F, 0x00);
    }
}

#[test]
fn the_tables_hold_what_decoding_gives() {
    let table = OpcodeTable::new();
    for opcode in 0..=255u8 {
        assert_eq!(table.lookup(opcode, false), decode_primary(opcode));
        assert_eq!(table.lookup(opcode, true), Some(decode_prefixed(opcode)));
    }
    assert_eq!(decode_primary(0x00), Some(Operation::Nop));
    assert_eq!(decode_primary(0x08), Some(Operation::StoreSp));
    assert_eq!(decode_primary(0x10), Some(Operation::Stop));
    assert_eq!(decode_primary(0x76), Some(Operation::Halt));
    assert_eq!(decode_primary(0x31), Some(Operation::Load16(Reg16::Sp)));
    assert_eq!(decode_primary(0x09), Some(Operation::AddHl(Reg16::Pair(RegWord::Bc))));
    assert_eq!(
        decode_primary(0x7E),
        Some(Operation::Load8(Operand8::Reg(RegByte::A), Operand8::Indirect(RegWord::Hl)))
    );
    assert_eq!(
        decode_primary(0x3A),
        Some(Operation::Load8(Operand8::Reg(RegByte::A), Operand8::IndirectDec))
    );
    assert_eq!(
        decode_primary(0x9E),
        Some(Operation::Alu(AluOp::Sbc, Operand8::Indirect(RegWord::Hl)))
    );
    assert_eq!(decode_primary(0xEE), Some(Operation::Alu(AluOp::Xor, Operand8::Immediate)));
    assert_eq!(decode_primary(0xD8), Some(Operation::Return(Condition::Carry)));
    assert_eq!(decode_primary(0xF1), Some(Operation::Pop(RegWord::Af)));
    assert_eq!(decode_primary(0xE5), Some(Operation::Push(RegWord::Hl)));
    assert_eq!(decode_primary(0xDF), Some(Operation::Restart(0x0018)));
    assert_eq!(decode_primary(0xCB), None);
    assert_eq!(decode_primary(0xD3), None);
    assert_eq!(decode_prefixed(0x36), Operation::Shift(ShiftOp::Swap, Operand8::Indirect(RegWord::Hl)));
    assert_eq!(decode_prefixed(0x7C), Operation::TestBit(7, Operand8::Reg(RegByte::H)));
    assert_eq!(decode_prefixed(0x87), Operation::ResetBit(0, Operand8::Reg(RegByte::A)));
    assert_eq!(decode_prefixed(0xFE), Operation::SetBit(7, Operand8::Indirect(RegWord::Hl)));
    assert_eq!(Operation::Call(Condition::Always).length(), 3);
    assert_eq!(Operation::Load8(Operand8::HighImmediate, Operand8::Reg(RegByte::A)).length(), 2);
    assert_eq!(Operation::TestBit(7, Operand8::Reg(RegByte::H)).length(), 2);
    assert_eq!(Operation::Nop.length(), 1);
}

fn operand_value(cpu: &Cpu, memory: &Memory, index: u8) -> u8 {
    match index {
        0 => cpu.regs.b,
        1 => cpu.regs.c,
        2 => cpu.regs.d,
        3 => cpu.regs.e,
        4 => cpu.regs.h,
        5 => cpu.regs.l,
        6 => memory.read(cpu.regs.read_value16_from(RegWord::Hl)),
        _ => cpu.regs.a,
    }
}

fn prepared(opcode: &[u8]) -> (Cpu, Memory) {
    let (mut cpu, mut memory) = machine_with(opcode);
    cpu.regs.a = 0x9A;
    cpu.regs.f = 0x10;
    cpu.regs.b = 0x1B;
    cpu.regs.c = 0x2C;
    cpu.regs.d = 0x3D;
    cpu.regs.e = 0x4E;
    cpu.regs.h = 0xC0;
    cpu.regs.l = 0x5F;
    memory.write(0xC05F, 0x66);
    (cpu, memory)
}

#[test]
fn every_register_load_copies_the_source_to_the_destination() {
    for opcode in 0x40..=0x7Fu8 {
        if opcode == 0x76 {
            continue;
        }
        let (mut cpu, mut memory) = prepared(&[opcode]);
        let source = operand_value(&cpu, &memory, opcode & 7);
        let others: Vec<u8> = (0..8u8).map(|i| operand_value(&cpu, &memory, i)).collect();
        assert_eq!(cpu.cycle(&mut memory), Ok(1));
        let target = (opcode >> 3) & 7;
        if target == 6 {
            // The address is the one HL held before the load.
            assert_eq!(memory.read(0xC05F), source);
        } else {
            assert_eq!(operand_value(&cpu, &memory, target), source);
        }
        for i in 0..8u8 {
            // A load to H or L moves what HL points at.
            if i != target && i != 6 {
                assert_eq!(operand_value(&cpu, &memory, i), others[i as usize]);
            }
        }
        assert_eq!(cpu.regs.f, 0x10);
        assert_eq!(cpu.pc, 0x0101);
    }
}

#[test]
fn every_accumulator_operation_works_on_its_operand() {
    for opcode in 0x80..=0xBFu8 {
        let (mut cpu, mut memory) = prepared(&[opcode]);
        let operand = operand_value(&cpu, &memory, opcode & 7);
        let expected = match (opcode >> 3) & 7 {
            0 => add_8(0x10, 0x9A, operand),
            1 => adc_8(0x10, 0x9A, operand),
            2 => sub_8(0x10, 0x9A, operand),
            3 => sbc_8(0x10, 0x9A, operand),
            4 => and_8(0x10, 0x9A, operand),
            5 => xor_8(0x10, 0x9A, operand),
            6 => or_8(0x10, 0x9A, operand),
            _ => (cp_8(0x10, 0x9A, operand), 0x9A),
        };
        assert_eq!(cpu.cycle(&mut memory), Ok(1));
        assert_eq!((cpu.regs.f, cpu.regs.a), expected);
        assert_eq!(cpu.pc, 0x0101);
    }
    // The same operations on the byte that follows the opcode.
    for (opcode, expected) in [
        (0xC6u8, add_8(0x10, 0x9A, 0x77)),
        (0xCE, adc_8(0x10, 0x9A, 0x77)),
        (0xD6, sub_8(0x10, 0x9A, 0x77)),
        (0xDE, sbc_8(0x10, 0x9A, 0x77)),
        (0xE6, and_8(0x10, 0x9A, 0x77)),
        (0xEE, xor_8(0x10, 0x9A, 0x77)),
        (0xF6, or_8(0x10, 0x9A, 0x77)),
        (0xFE, (cp_8(0x10, 0x9A, 0x77), 0x9A)),
    ] {
        let (mut cpu, mut memory) = prepared(&[opcode, 0x77]);
        assert_eq!(cpu.cycle(&mut memory), Ok(1));
        assert_eq!((cpu.regs.f, cpu.regs.a), expected);
        assert_eq!(cpu.pc, 0x0102);
    }
}

#[test]
fn every_known_opcode_is_executed_and_every_other_reported() {
    let unknown = [0xD3u8, 0xDB, 0xDD, 0xE3, 0xE4, 0xEB, 0xEC, 0xED, 0xF4, 0xFC, 0xFD];
    for opcode in 0..=255u8 {
        let (mut cpu, mut memory) = prepared(&[opcode, 0x01, 0x02]);
        let result = cpu.cycle(&mut memory);
        if unknown.contains(&opcode) {
            assert_eq!(result, Err(CpuError::UnknownInstruction { opcode, pc: 0x0100 }));
        } else {
            assert_eq!(result, Ok(1));
        }
    }
}

#[test]
fn loads_through_bc_and_de_and_counting_of_pairs() {
    // LD BC,0xC000; LD (BC),A; LD DE,0xC000; LD A,(DE); INC DE; DEC BC; INC HL; DEC HL
    let (mut cpu, mut memory) = machine_with(&[
        0x01, 0x00, 0xC0, 0x02, 0x11, 0x00, 0xC0, 0x1A, 0x13, 0x0B, 0x23, 0x2B, 0x2B,
    ]);
    cpu.regs.a = 0x5A;
    assert_eq!(cpu.cycle(&mut memory), Ok(1));
    assert_eq!(cpu.cycle(&mut memory), Ok(1));
    assert_eq!(memory.read(0xC000), 0x5A);
    cpu.regs.a = 0x00;
    assert_eq!(cpu.cycle(&mut memory), Ok(1));
    assert_eq!(cpu.cycle(&mut memory), Ok(1));
    assert_eq!(cpu.regs.a, 0x5A);
    assert_eq!(cpu.cycle(&mut memory), Ok(1));
    assert_eq!(cpu.regs.read_value16_from(RegWord::De), 0xC001);
    assert_eq!(cpu.cycle(&mut memory), Ok(1));
    assert_eq!(cpu.regs.read_value16_from(RegWord::Bc), 0xBFFF);
    assert_eq!(cpu.cycle(&mut memory), Ok(1));
    assert_eq!(cpu.regs.read_value16_from(RegWord::Hl), 0x0001);
    assert_eq!(cpu.cycle(&mut memory), Ok(1));
    assert_eq!(cpu.cycle(&mut memory), Ok(1));
    assert_eq!(cpu.regs.read_value16_from(RegWord::Hl), 0xFFFF);
    assert_eq!(cpu.regs.f, 0x00);
}

#[test]
fn the_accumulator_rotations_through_carry_clear_zero() {
    // RLA with A = 0x80 and Carry clear gives 0 with Carry set and Zero clear;
    // RL B with the same byte sets Zero.
    let (mut cpu, mut memory) = machine_with(&[0x17, 0xCB, 0x10, 0x1F, 0xCB, 0x19]);
    cpu.regs.a = 0x80;
    cpu.regs.b = 0x80;
    assert_eq!(cpu.cycle(&mut memory), Ok(1));
    assert_eq!((cpu.regs.a, cpu.regs.f), (0x00, 0x10));
    cpu.regs.f = 0x00;
    assert_eq!(cpu.cycle(&mut memory), Ok(1));
    assert_eq!((cpu.regs.b, cpu.regs.f), (0x00, 0x90));
    // RRA with A = 0x01 and Carry clear; RR C with the same byte.
    cpu.regs.a = 0x01;
    cpu.regs.c = 0x01;
    cpu.regs.f = 0x00;
    assert_eq!(cpu.cycle(&mut memory), Ok(1));
    assert_eq!((cpu.regs.a, cpu.regs.f), (0x00, 0x10));
    cpu.regs.f = 0x00;
    assert_eq!(cpu.cycle(&mut memory), Ok(1));
    assert_eq!((cpu.regs.c, cpu.regs.f), (0x00, 0x90));
}

#[test]
fn push_and_pop_can_be_called_on_their_own() {
    let (mut cpu, mut memory) = machine_with(&[]);
    cpu.sp = 0xD000;
    cpu.regs.write_value16_to(RegWord::De, 0xBEEF);
    cpu.regs.write_value16_to(RegWord::Hl, 0x1234);
    cpu.opcode_push(&mut memory, RegWord::De);
    assert_eq!(cpu.sp, 0xCFFE);
    assert_eq!(memory.read(0xCFFF), 0xBE);
    assert_eq!(memory.read(0xCFFE), 0xEF);
    cpu.regs.write_value16_to(RegWord::De, 0x0000);
    cpu.opcode_pop(&memory, RegWord::De);
    assert_eq!(cpu.regs.read_value16_from(RegWord::De), 0xBEEF);
    assert_eq!(cpu.regs.read_value16_from(RegWord::Hl), 0x1234);
    assert_eq!(cpu.sp, 0xD000);
    cpu.regs.a = 0x12;
    cpu.regs.f = 0x3C;
    cpu.opcode_push(&mut memory, RegWord::Af);
    cpu.opcode_pop(&memory, RegWord::Af);
    assert_eq!((cpu.regs.a, cpu.regs.f), (0x12, 0x30));
    assert_eq!(cpu.sp, 0xD000);
}
