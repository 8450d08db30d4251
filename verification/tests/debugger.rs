use gboyrust::cpu::machine::CpuError;
use gboyrust::cpu::register::RegByte;
use gboyrust::cpu::register::RegWord;
use gboyrust::debugger::Debugger;
use gboyrust::disassembler::Argument;
use gboyrust::disassembler::AssemblyDesc;
use gboyrust::disassembler::Opcode;
use gboyrust::disassembler::Register;
use gboyrust::text::format_decimal3;
use gboyrust::text::format_decimal4;
use gboyrust::text::format_hex_byte;
use gboyrust::text::format_hex_word;
use std::collections::HashMap;

fn debugger_with(program: &[u8]) -> Debugger {
    let mut cartridge = vec![0u8; 0x0100];
    cartridge.extend_from_slice(program);
    let mut debugger = Debugger::new();
    debugger.load_cartridge(&cartridge);
    debugger
}

#[test]
fn numbers_as_text() {
    assert_eq!(format_hex_byte(0x00), "00");
    assert_eq!(format_hex_byte(0x9F), "9F");
    assert_eq!(format_hex_byte(0xA0), "A0");
    assert_eq!(format_hex_word(0x0000), "0000");
    assert_eq!(format_hex_word(0xBEEF), "BEEF");
    assert_eq!(format_hex_word(0x01C3), "01C3");
    assert_eq!(format_decimal3(0), "000");
    assert_eq!(format_decimal3(7), "007");
    assert_eq!(format_decimal3(42), "042");
    assert_eq!(format_decimal3(255), "255");
    assert_eq!(format_decimal4(16), "0016");
    assert_eq!(format_decimal4(1024), "1024");
    assert_eq!(format_decimal4(9999), "9999");
    assert_eq!(format_decimal4(0), "0000");
    assert_eq!(format_decimal4(10000), "10000");
    assert_eq!(format_decimal4(40960), "40960");
    assert_eq!(format_decimal4(65535), "65535");
}

#[test]
fn a_new_debugger_shows_the_boot_state() {
    let debugger = Debugger::new();
    assert_eq!(debugger.get_register_word(RegWord::Af), "0100");
    assert_eq!(debugger.get_register_word(RegWord::Hl), "0000");
    assert_eq!(debugger.get_register_byte(RegByte::A), "01");
    assert_eq!(debugger.get_register_byte(RegByte::F), "00");
    assert_eq!(debugger.get_pc_string(), "0100");
    assert_eq!(debugger.get_sp_string(), "FFFE");
    assert_eq!(debugger.get_div_timer(), "000");
    assert_eq!(debugger.get_custom_timer(), "000");
    assert_eq!(debugger.get_custom_timer_tick_rate(), "1024");
    assert_eq!(debugger.get_timer_reset(), "000");
    assert_eq!(debugger.get_program_counter(), 0x0100);
    assert_eq!(debugger.get_machine_cycles(), 0);
}

#[test]
fn breakpoints_are_toggled() {
    let mut debugger = Debugger::new();
    assert_eq!(debugger.is_registered_breakpoint(0x0150), false);
    debugger.toggle_breakpoint(0x0150);
    assert_eq!(debugger.is_registered_breakpoint(0x0150), true);
    assert_eq!(debugger.is_registered_breakpoint(0x0151), false);
    debugger.toggle_breakpoint(0x0150);
    assert_eq!(debugger.is_registered_breakpoint(0x0150), false);
}

#[test]
fn a_step_executes_one_instruction_and_lets_the_timer_go_on() {
    // LD A,0x05; LDH (0x07),A switches the timer on at 16 cycles a step; NOP ...
    let mut debugger = debugger_with(&[0x3E, 0x05, 0xE0, 0x07, 0x00, 0x00, 0x00, 0x00, 0x00]);
    assert_eq!(debugger.step(), Ok(1));
    assert_eq!(debugger.get_register_byte(RegByte::A), "05");
    assert_eq!(debugger.get_machine_cycles(), 1);
    assert_eq!(debugger.step(), Ok(1));
    assert_eq!(debugger.get_custom_timer_tick_rate(), "0016");
    // Two steps have passed while the timer was off, one since it is on.
    assert_eq!(debugger.get_custom_timer(), "000");
    for _ in 0..3 {
        assert_eq!(debugger.step(), Ok(1));
    }
    assert_eq!(debugger.get_custom_timer(), "001");
    assert_eq!(debugger.get_machine_cycles(), 5);
    assert_eq!(debugger.get_pc_string(), "0107");
    assert_eq!(debugger.memory().read(0xFF05), 1);
    assert_eq!(debugger.cpu().pc, 0x0107);
}

#[test]
fn a_run_stops_at_a_breakpoint_at_its_budget_or_at_an_unknown_opcode() {
    let mut debugger = debugger_with(&[0x00, 0x00, 0x00, 0x00, 0xD3]);
    debugger.toggle_breakpoint(0x0102);
    assert_eq!(debugger.run(100), Ok(2));
    assert_eq!(debugger.get_program_counter(), 0x0102);
    // At a breakpoint a run takes no step.
    assert_eq!(debugger.run(100), Ok(0));
    debugger.toggle_breakpoint(0x0102);
    assert_eq!(debugger.run(1), Ok(1));
    assert_eq!(debugger.get_program_counter(), 0x0103);
    assert_eq!(
        debugger.run(100),
        Err(CpuError::UnknownInstruction { opcode: 0xD3, pc: 0x0104 })
    );
    assert_eq!(debugger.get_program_counter(), 0x0104);
    assert_eq!(debugger.get_machine_cycles(), 4);
    assert_eq!(debugger.run(0), Ok(0));
}

#[test]
fn the_stack_view_shows_the_words_around_sp() {
    let mut debugger = debugger_with(&[0x31, 0x00, 0xD0, 0x01, 0x34, 0x12, 0xC5]);
    assert_eq!(debugger.step(), Ok(1));
    assert_eq!(debugger.step(), Ok(1));
    assert_eq!(debugger.step(), Ok(1));
    assert_eq!(debugger.get_sp_string(), "CFFE");
    let rows = debugger.stack_data();
    assert_eq!(
        rows,
        vec![
            (false, 0xCFF6, 0x0000),
            (false, 0xCFF8, 0x0000),
            (false, 0xCFFA, 0x0000),
            (false, 0xCFFC, 0x0000),
            (true, 0xCFFE, 0x1234),
            (false, 0xD000, 0x0000),
            (false, 0xD002, 0x0000),
            (false, 0xD004, 0x0000),
        ]
    );
    // At power-up SP is 0xFFFE: the view ends below 0xFFFF.
    let rows = Debugger::new().stack_data();
    assert_eq!(rows.len(), 5);
    assert_eq!(rows[0], (false, 0xFFF6, 0x0000));
    assert_eq!(rows[4], (true, 0xFFFE, 0x0000));
}

#[test]
fn the_disassembly_lists_every_instruction_with_its_bytes() {
    let debugger = debugger_with(&[0x3E, 0x05, 0xC3, 0x00, 0x01, 0xCB, 0x7C, 0xD3]);
    let mut cache = vec![];
    let mut map = HashMap::new();
    map.insert(0x0101u16, 77usize);
    debugger.disassemble(&mut cache, &mut map);
    // 0x100 bytes of NOP, then the program.
    assert_eq!(map[&0x0000], 0);
    assert_eq!(map[&0x00FF], 0xFF);
    assert_eq!(map[&0x0100], 0x100);
    assert_eq!(map[&0x0102], 0x101);
    assert_eq!(map[&0x0105], 0x102);
    assert_eq!(map[&0x0107], 0x103);
    assert_eq!(map.contains_key(&0x0101), false);
    assert_eq!(map.len(), cache.len());
    assert_eq!(
        cache[0x100],
        (
            [Some(0x3E), Some(0x05), None],
            AssemblyDesc {
                offset: 0x0100,
                opcode: Opcode::Load,
                dest: Argument::R(Register::A),
                src: Argument::Data8(0x05),
                size: 2,
            }
        )
    );
    assert_eq!(
        cache[0x101],
        (
            [Some(0xC3), Some(0x00), Some(0x01)],
            AssemblyDesc {
                offset: 0x0102,
                opcode: Opcode::Jp,
                dest: Argument::Unused,
                src: Argument::Data16(0x0100),
                size: 3,
            }
        )
    );
    assert_eq!(cache[0x102].0, [Some(0xCB), Some(0x7C), None]);
    assert_eq!(cache[0x102].1.opcode, Opcode::Bit);
    assert_eq!(cache[0x103].0, [Some(0xD3), None, None]);
    assert_eq!(cache[0x103].1.opcode, Opcode::Byte);
    let last = cache[cache.len() - 1];
    assert_eq!(last.1.offset, 0xFFFE);
    // A second pass gives the same listing.
    let first_pass = cache.clone();
    debugger.disassemble(&mut cache, &mut map);
    assert_eq!(cache, first_pass);
    let dump = Debugger::generate_hexdump(&cache[0x101].1, debugger.memory().get_mem_slice());
    assert_eq!(dump, [Some(0xC3), Some(0x00), Some(0x01)]);
}

#[test]
fn serial_output_is_taken_once() {
    // LD A,'O'; LDH (0x01),A; LD A,0x81; LDH (0x02),A
    let mut debugger = debugger_with(&[0x3E, b'O', 0xE0, 0x01, 0x3E, 0x81, 0xE0, 0x02]);
    assert_eq!(debugger.run(4), Ok(4));
    assert_eq!(debugger.take_serial_output(), vec![b'O']);
    assert_eq!(debugger.take_serial_output(), vec![]);
}

#[test]
fn a_run_whose_budget_ends_before_an_unknown_opcode_gives_its_steps() {
    let mut debugger = debugger_with(&[0x00, 0x00, 0xD3]);
    // Two steps bring PC to the unknown opcode: the budget is used up, so the
    // run gives its steps, and only the next run meets the opcode.
    assert_eq!(debugger.run(2), Ok(2));
    assert_eq!(debugger.get_program_counter(), 0x0102);
    assert_eq!(
        debugger.run(1),
        Err(CpuError::UnknownInstruction { opcode: 0xD3, pc: 0x0102 })
    );
    assert_eq!(debugger.run(0), Ok(0));
    // At a breakpoint the run takes no step and meets no opcode.
    debugger.toggle_breakpoint(0x0102);
    assert_eq!(debugger.run(5), Ok(0));
    assert_eq!(debugger.get_machine_cycles(), 2);
}
