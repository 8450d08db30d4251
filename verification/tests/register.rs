use gboyrust::cpu::register::high_byte;
use gboyrust::cpu::register::low_byte;
use gboyrust::cpu::register::make_word;
use gboyrust::cpu::register::RegByte;
use gboyrust::cpu::register::RegWord;
use gboyrust::cpu::register::RegisterPair;
use gboyrust::cpu::register::Registers;

#[test]
fn test_word_register_to_pair() {
    let register_af = RegWord::Af;

    let pair: RegisterPair = register_af.into();

    assert_eq!(pair.0, RegByte::A);
    assert_eq!(pair.1, RegByte::F);

    let register_bc = RegWord::Bc;

    let pair: RegisterPair = register_bc.into();

    assert_eq!(pair.0, RegByte::B);
    assert_eq!(pair.1, RegByte::C);

    let register_de = RegWord::De;

    let pair: RegisterPair = register_de.into();

    assert_eq!(pair.0, RegByte::D);
    assert_eq!(pair.1, RegByte::E);

    let register_hl = RegWord::Hl;

    let pair: RegisterPair = register_hl.into();

    assert_eq!(pair.0, RegByte::H);
    assert_eq!(pair.1, RegByte::L);
}

#[test]
fn test_write_word_value_into_register() {
    let mut regs = Registers::new();
    let register_af = RegWord::Af;

    regs.write_value16_to(register_af, 0xFF80);

    assert_eq!(regs.a, 0xFF);
    assert_eq!(regs.f, 0x80);

    let register_bc = RegWord::Bc;

    regs.write_value16_to(register_bc, 0xAABB);

    assert_eq!(regs.b, 0xAA);
    assert_eq!(regs.c, 0xBB);

    let register_de = RegWord::De;

    regs.write_value16_to(register_de, 0xCCDD);

    assert_eq!(regs.d, 0xCC);
    assert_eq!(regs.e, 0xDD);

    let register_hl = RegWord::Hl;

    regs.write_value16_to(register_hl, 0xEE11);

    assert_eq!(regs.h, 0xEE);
    assert_eq!(regs.l, 0x11);
}

#[test]
fn test_write_byte_into_register() {
    let mut regs = Registers::new();

    let reg_a = RegByte::A;
    regs.write_value8_to(reg_a, 0x11);
    assert_eq!(regs.a, 0x11);

    let reg_f = RegByte::F;
    regs.write_value8_to(reg_f, 0x22);
    assert_eq!(regs.f, 0x22);

    let reg_b = RegByte::B;
    regs.write_value8_to(reg_b, 0x33);
    assert_eq!(regs.b, 0x33);

    let reg_c = RegByte::C;
    regs.write_value8_to(reg_c, 0x44);
    assert_eq!(regs.c, 0x44);

    let reg_d = RegByte::D;
    regs.write_value8_to(reg_d, 0x55);
    assert_eq!(regs.d, 0x55);

    let reg_e = RegByte::E;
    regs.write_value8_to(reg_e, 0x66);
    assert_eq!(regs.e, 0x66);

    let reg_h = RegByte::H;
    regs.write_value8_to(reg_h, 0x77);
    assert_eq!(regs.h, 0x77);

    let reg_l = RegByte::L;
    regs.write_value8_to(reg_l, 0x88);
    assert_eq!(regs.l, 0x88);
}

#[test]
fn read_word_from_register() {
    let regs = Registers {
        a: 0x11,
        f: 0x22,
        b: 0x33,
        c: 0x44,
        d: 0x55,
        e: 0x66,
        h: 0x77,
        l: 0x88,
    };

    let register_af = RegWord::Af;
    let result = regs.read_value16_from(register_af);
    assert_eq!(result, 0x1122);

    let register_bc = RegWord::Bc;
    let result = regs.read_value16_from(register_bc);
    assert_eq!(result, 0x3344);

    let register_de = RegWord::De;
    let result = regs.read_value16_from(register_de);
    assert_eq!(result, 0x5566);

    let register_hl = RegWord::Hl;
    let result = regs.read_value16_from(register_hl);
    assert_eq!(result, 0x7788);
}

#[test]
fn read_byte_from_register() {
    let regs = Registers {
        a: 0x11,
        f: 0x22,
        b: 0x33,
        c: 0x44,
        d: 0x55,
        e: 0x66,
        h: 0x77,
        l: 0x88,
    };

    let reg_a = RegByte::A;
    let result = regs.read_value8_from(reg_a);
    assert_eq!(result, 0x11);

    let reg_f = RegByte::F;
    let result = regs.read_value8_from(reg_f);
    assert_eq!(result, 0x22);

    let reg_b = RegByte::B;
    let result = regs.read_value8_from(reg_b);
    assert_eq!(result, 0x33);

    let reg_c = RegByte::C;
    let result = regs.read_value8_from(reg_c);
    assert_eq!(result, 0x44);

    let reg_d = RegByte::D;
    let result = regs.read_value8_from(reg_d);
    assert_eq!(result, 0x55);

    let reg_e = RegByte::E;
    let result = regs.read_value8_from(reg_e);
    assert_eq!(result, 0x66);

    let reg_h = RegByte::H;
    let result = regs.read_value8_from(reg_h);
    assert_eq!(result, 0x77);

    let reg_l = RegByte::L;
    let result = regs.read_value8_from(reg_l);
    assert_eq!(result, 0x88);
}

#[test]
fn boot_registers_hold_one_in_a() {
    let regs = Registers::new();
    assert_eq!(regs.read_value16_from(RegWord::Af), 0x0100);
    assert_eq!(regs.read_value16_from(RegWord::Bc), 0x0000);
    assert_eq!(regs.read_value16_from(RegWord::De), 0x0000);
    assert_eq!(regs.read_value16_from(RegWord::Hl), 0x0000);
}

#[test]
fn a_written_pair_is_read_back_and_leaves_the_others() {
    let mut regs = Registers::new();
    regs.write_value16_to(RegWord::De, 0xBEEF);
    assert_eq!(regs.read_value16_from(RegWord::De), 0xBEEF);
    assert_eq!(regs.read_value16_from(RegWord::Af), 0x0100);
    assert_eq!(regs.read_value16_from(RegWord::Bc), 0x0000);
    assert_eq!(regs.read_value16_from(RegWord::Hl), 0x0000);
    assert_eq!(regs.read_value8_from(RegByte::D), 0xBE);
    assert_eq!(regs.read_value8_from(RegByte::E), 0xEF);
}

#[test]
fn words_are_made_of_a_high_and_a_low_byte() {
    assert_eq!(make_word(0x12, 0x34), 0x1234);
    assert_eq!(high_byte(0xABCD), 0xAB);
    assert_eq!(low_byte(0xABCD), 0xCD);
}
