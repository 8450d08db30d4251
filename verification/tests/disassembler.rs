use gboyrust::disassembler::Argument;
use gboyrust::disassembler::AssemblyDesc;
use gboyrust::disassembler::Flag;
use gboyrust::disassembler::Opcode;
use gboyrust::disassembler::Register;

#[test]
fn test_conditional_flags_decoding() {
    let result_jp_nz = Flag::decode_conditional(0xC2);
    let result_jp_nc = Flag::decode_conditional(0xD2);
    let result_jp_z = Flag::decode_conditional(0xCC);
    let result_jp_c = Flag::decode_conditional(0xDC);
    let result_jp = Flag::decode_conditional(0xC3);

    assert_eq!(result_jp_nz, Flag::NotZero);
    assert_eq!(result_jp_nc, Flag::NotCarry);
    assert_eq!(result_jp_z, Flag::Zero);
    assert_eq!(result_jp_c, Flag::Carry);
    assert_eq!(result_jp, Flag::Always);

    let result_jr_nz = Flag::decode_conditional(0x20);
    let result_jr_nc = Flag::decode_conditional(0x30);
    let result_jr_z = Flag::decode_conditional(0x28);
    let result_jr_c = Flag::decode_conditional(0x38);
    let result_jr = Flag::decode_conditional(0x18);

    assert_eq!(result_jr_nz, Flag::NotZero);
    assert_eq!(result_jr_nc, Flag::NotCarry);
    assert_eq!(result_jr_z, Flag::Zero);
    assert_eq!(result_jr_c, Flag::Carry);
    assert_eq!(result_jr, Flag::Always);

    let result_ret_nz = Flag::decode_conditional(0xC0);
    let result_ret_nc = Flag::decode_conditional(0xD0);
    let result_ret_z = Flag::decode_conditional(0xC8);
    let result_ret_c = Flag::decode_conditional(0xD8);
    let result_ret = Flag::decode_conditional(0xC9);

    assert_eq!(result_ret_nz, Flag::NotZero);
    assert_eq!(result_ret_nc, Flag::NotCarry);
    assert_eq!(result_ret_z, Flag::Zero);
    assert_eq!(result_ret_c, Flag::Carry);
    assert_eq!(result_ret, Flag::Always);

    let result_call_nz = Flag::decode_conditional(0xC4);
    let result_call_nc = Flag::decode_conditional(0xD4);
    let result_call_z = Flag::decode_conditional(0xCC);
    let result_call_c = Flag::decode_conditional(0xDC);
    let result_call = Flag::decode_conditional(0xCD);

    assert_eq!(result_call_nz, Flag::NotZero);
    assert_eq!(result_call_nc, Flag::NotCarry);
    assert_eq!(result_call_z, Flag::Zero);
    assert_eq!(result_call_c, Flag::Carry);
    assert_eq!(result_call, Flag::Always);
}

#[test]
fn an_opcode_without_condition_decodes_to_always() {
    assert_eq!(Flag::decode_conditional(0xE0), Flag::Always);
    assert_eq!(Flag::decode_conditional(0x7F), Flag::Always);
    assert_eq!(Flag::decode_conditional(0xFF), Flag::Always);
}

#[test]
fn disassembles_loads_with_their_operands_and_sizes() {
    assert_eq!(
        AssemblyDesc::disassemble(0x0100, 0x3E, 0x05, 0xC6),
        AssemblyDesc {
            offset: 0x0100,
            opcode: Opcode::Load,
            dest: Argument::R(Register::A),
            src: Argument::Data8(0x05),
            size: 2,
        }
    );
    assert_eq!(
        AssemblyDesc::disassemble(0x0000, 0x21, 0x34, 0x12),
        AssemblyDesc {
            offset: 0x0000,
            opcode: Opcode::Load,
            dest: Argument::R(Register::Hl),
            src: Argument::Data16(0x1234),
            size: 3,
        }
    );
    assert_eq!(
        AssemblyDesc::disassemble(0x0010, 0x46, 0x00, 0x00),
        AssemblyDesc {
            offset: 0x0010,
            opcode: Opcode::Load,
            dest: Argument::R(Register::B),
            src: Argument::IndexedBy(Register::Hl),
            size: 1,
        }
    );
    assert_eq!(
        AssemblyDesc::disassemble(0x0010, 0x22, 0x00, 0x00),
        AssemblyDesc {
            offset: 0x0010,
            opcode: Opcode::Load,
            dest: Argument::IncRegister(Register::Hl),
            src: Argument::R(Register::A),
            size: 1,
        }
    );
    assert_eq!(
        AssemblyDesc::disassemble(0x0010, 0xE0, 0x44, 0x00),
        AssemblyDesc {
            offset: 0x0010,
            opcode: Opcode::Load,
            dest: Argument::Offset(0x44),
            src: Argument::R(Register::A),
            size: 2,
        }
    );
    assert_eq!(
        AssemblyDesc::disassemble(0x0010, 0xF8, 0xFE, 0x00),
        AssemblyDesc {
            offset: 0x0010,
            opcode: Opcode::Load,
            dest: Argument::R(Register::Hl),
            src: Argument::SOffset(-2),
            size: 2,
        }
    );
}

#[test]
fn disassembles_jumps_calls_and_the_prefixed_table() {
    assert_eq!(
        AssemblyDesc::disassemble(0x0200, 0xC2, 0x50, 0x01),
        AssemblyDesc {
            offset: 0x0200,
            opcode: Opcode::Jp,
            dest: Argument::Condition(Flag::NotZero),
            src: Argument::Data16(0x0150),
            size: 3,
        }
    );
    assert_eq!(
        AssemblyDesc::disassemble(0x0200, 0x18, 0xFE, 0x00),
        AssemblyDesc {
            offset: 0x0200,
            opcode: Opcode::Jr,
            dest: Argument::Unused,
            src: Argument::Data8(0xFE),
            size: 2,
        }
    );
    assert_eq!(
        AssemblyDesc::disassemble(0x0200, 0xFF, 0x00, 0x00),
        AssemblyDesc {
            offset: 0x0200,
            opcode: Opcode::Rst,
            dest: Argument::Unused,
            src: Argument::Data8(0x38),
            size: 1,
        }
    );
    assert_eq!(
        AssemblyDesc::disassemble(0x0200, 0xCB, 0x7C, 0x00),
        AssemblyDesc {
            offset: 0x0200,
            opcode: Opcode::Bit,
            dest: Argument::Bit(7),
            src: Argument::R(Register::H),
            size: 2,
        }
    );
    assert_eq!(
        AssemblyDesc::disassemble(0x0200, 0xCB, 0x86, 0x00),
        AssemblyDesc {
            offset: 0x0200,
            opcode: Opcode::Res,
            dest: Argument::Bit(0),
            src: Argument::IndexedBy(Register::Hl),
            size: 2,
        }
    );
    assert_eq!(
        AssemblyDesc::disassemble(0x0200, 0xCB, 0x37, 0x00),
        AssemblyDesc {
            offset: 0x0200,
            opcode: Opcode::Swap,
            dest: Argument::R(Register::A),
            src: Argument::Unused,
            size: 2,
        }
    );
}

#[test]
fn an_unknown_opcode_is_shown_as_a_byte() {
    for opcode in [0xD3u8, 0xDB, 0xDD, 0xE3, 0xE4, 0xEB, 0xEC, 0xED, 0xF4, 0xFC, 0xFD] {
        assert_eq!(
            AssemblyDesc::disassemble(0x4000, opcode, 0x11, 0x22),
            AssemblyDesc {
                offset: 0x4000,
                opcode: Opcode::Byte,
                dest: Argument::Unused,
                src: Argument::Data8(opcode),
                size: 1,
            }
        );
    }
}

#[test]
fn instructions_and_operands_are_shown_as_text() {
    assert_eq!(
        AssemblyDesc::disassemble(0x0100, 0x3E, 0x05, 0x00).to_text(),
        "ld a, $05\n"
    );
    assert_eq!(
        AssemblyDesc::disassemble(0x0100, 0xC3, 0x50, 0x01).to_text(),
        "jp  $0150\n"
    );
    assert_eq!(
        AssemblyDesc::disassemble(0x0100, 0xCA, 0x50, 0x01).to_text(),
        "jp z, $0150\n"
    );
    assert_eq!(AssemblyDesc::disassemble(0x0100, 0x00, 0x00, 0x00).to_text(), "nop   \n");
    assert_eq!(
        AssemblyDesc::disassemble(0x0100, 0xCB, 0xFE, 0x00).to_text(),
        "set 7, (hl)\n"
    );
    assert_eq!(Argument::Address(0xC000).to_text(), "($C000)");
    assert_eq!(Argument::Offset(0x44).to_text(), "($FF44)");
    assert_eq!(Argument::SOffset(-2).to_text(), "SP + FE");
    assert_eq!(Argument::SOffset(5).to_text(), "SP + 05");
    assert_eq!(Argument::IncRegister(Register::Hl).to_text(), "(hl+)");
    assert_eq!(Argument::DecRegister(Register::Hl).to_text(), "(hl-)");
    assert_eq!(Argument::Bit(3).to_text(), "3");
    assert_eq!(Argument::Bit(200).to_text(), "200");
    assert_eq!(Argument::Bit(42).to_text(), "42");
    assert_eq!(Argument::Condition(Flag::NotCarry).to_text(), "nc");
    assert_eq!(Argument::Condition(Flag::Always).to_text(), "");
    assert_eq!(Argument::Unused.to_text(), " ");
    assert_eq!(Opcode::Byte.mnemonic(), ".byte");
    assert_eq!(Opcode::SetBit.mnemonic(), "set");
    assert_eq!(Register::Sp.to_text(), "sp");
}

#[test]
fn jumps_calls_and_restarts_can_be_followed() {
    assert_eq!(AssemblyDesc::disassemble(0x0100, 0xC3, 0x50, 0x01).follow(), Some(0x0150));
    assert_eq!(AssemblyDesc::disassemble(0x0100, 0xCD, 0x00, 0x40).follow(), Some(0x4000));
    assert_eq!(AssemblyDesc::disassemble(0x0100, 0xDC, 0x00, 0x40).follow(), Some(0x4000));
    assert_eq!(AssemblyDesc::disassemble(0x0100, 0xEF, 0x00, 0x00).follow(), Some(0x0028));
    assert_eq!(AssemblyDesc::disassemble(0x0100, 0x18, 0xFE, 0x00).follow(), Some(0x0100));
    assert_eq!(AssemblyDesc::disassemble(0x0100, 0x20, 0x10, 0x00).follow(), Some(0x0112));
    assert_eq!(AssemblyDesc::disassemble(0xFFFF, 0x18, 0x00, 0x00).follow(), Some(0x0001));
    assert_eq!(AssemblyDesc::disassemble(0x0100, 0xE9, 0x00, 0x00).follow(), None);
    assert_eq!(AssemblyDesc::disassemble(0x0100, 0x3E, 0x05, 0x00).follow(), None);
    assert_eq!(AssemblyDesc::disassemble(0x0100, 0xC9, 0x00, 0x00).follow(), None);
}

#[test]
fn registers_are_found_by_the_bits_of_an_opcode() {
    assert_eq!(Register::decode_8bit_src_register(0x78), Register::B);
    assert_eq!(Register::decode_8bit_src_register(0x7E), Register::Hl);
    assert_eq!(Register::decode_8bit_src_register(0x7F), Register::A);
    assert_eq!(Register::decode_8bit_dest_register(0x78), Register::A);
    assert_eq!(Register::decode_8bit_dest_register(0x0E), Register::C);
    assert_eq!(Register::decode_8bit_dest_register(0x36), Register::Hl);
    assert_eq!(Register::decode_8bit_dest_register(0x65), Register::H);
    assert_eq!(Register::decode_16bit_register(0x01), Register::Bc);
    assert_eq!(Register::decode_16bit_register(0x11), Register::De);
    assert_eq!(Register::decode_16bit_register(0x21), Register::Hl);
    assert_eq!(Register::decode_16bit_register(0x31), Register::Sp);
    assert_eq!(Register::decode_16bit_register(0xF1), Register::Af);
    assert_eq!(Register::decode_16bit_register(0xC5), Register::Bc);
}
