use z80core::cpu::CPU;

#[test]
fn dasm_plain_mnemonics() {
    let mut c = CPU::new(0xFFFF);
    c.bus.escribir_byte(0x0000, 0x00);
    let (texto, len) = c.dasm(0x0000);
    assert_eq!(texto, "00            NOP");
    assert_eq!(len, 1);

    c.bus.escribir_byte(0x0000, 0x40);
    assert_eq!(c.dasm(0x0000).0, "40            LD B,B");

    c.bus.escribir_byte(0x0000, 0x76);
    assert_eq!(c.dasm(0x0000).0, "76            HALT");

    c.bus.escribir_byte(0x0000, 0xC9);
    assert_eq!(c.dasm(0x0000).0, "C9            RET");
}

#[test]
fn dasm_immediate_byte() {
    let mut c = CPU::new(0xFFFF);
    c.bus.escribir_byte(0x0000, 0x06);
    c.bus.escribir_byte(0x0001, 0x5A);
    let (texto, len) = c.dasm(0x0000);
    assert_eq!(texto, "06 5A         LD B,$5A");
    assert_eq!(len, 2);
}

#[test]
fn dasm_immediate_word() {
    let mut c = CPU::new(0xFFFF);
    c.bus.escribir_byte(0x0000, 0x01);
    c.bus.escribir_byte(0x0001, 0xFE);
    c.bus.escribir_byte(0x0002, 0xA8);
    let (texto, len) = c.dasm(0x0000);
    assert_eq!(texto, "01 FE A8      LD BC,$A8FE");
    assert_eq!(len, 3);
}

#[test]
fn dasm_renders_live_hl_address() {
    let mut c = CPU::new(0xFFFF);
    c.reg.set_hl(0xBEEF);
    c.bus.escribir_byte(0x0000, 0x7E);
    assert_eq!(c.dasm(0x0000).0, "7E            LD A,($BEEF)");

    c.bus.escribir_byte(0x0000, 0x34);
    assert_eq!(c.dasm(0x0000).0, "34            INC ($BEEF)");
}

#[test]
fn dasm_jr_renders_target() {
    let mut c = CPU::new(0xFFFF);
    c.bus.escribir_byte(0x1000, 0x18);
    c.bus.escribir_byte(0x1001, 0xFE);
    let (texto, len) = c.dasm(0x1000);
    assert_eq!(texto, "18 FE         JR $1000");
    assert_eq!(len, 2);

    c.bus.escribir_byte(0x1000, 0x20);
    c.bus.escribir_byte(0x1001, 0x10);
    assert_eq!(c.dasm(0x1000).0, "20 10         JR NZ,$1012");
}

#[test]
fn dasm_cb_prefix() {
    let mut c = CPU::new(0xFFFF);
    c.bus.escribir_byte(0x0000, 0xCB);
    c.bus.escribir_byte(0x0001, 0x00);
    let (texto, len) = c.dasm(0x0000);
    assert_eq!(texto, "CB00          RLC B");
    assert_eq!(len, 2);

    c.bus.escribir_byte(0x0001, 0x47);
    assert_eq!(c.dasm(0x0000).0, "CB47          BIT 0,A");

    c.bus.escribir_byte(0x0001, 0x96);
    assert_eq!(c.dasm(0x0000).0, "CB96          RES 2,(HL)");

    c.bus.escribir_byte(0x0001, 0xFE);
    assert_eq!(c.dasm(0x0000).0, "CBFE          SET 7,(HL)");
}

#[test]
fn dasm_ld_hl_immediate() {
    let mut c = CPU::new(0xFFFF);
    c.reg.set_hl(0xEF10);
    c.bus.escribir_byte(0x0000, 0x36);
    c.bus.escribir_byte(0x0001, 0x5A);
    assert_eq!(c.dasm(0x0000).0, "36 5A         LD ($EF10),5A");
}

#[test]
fn dasm_unknown_opcode_is_empty() {
    let mut c = CPU::new(0xFFFF);
    c.bus.escribir_byte(0x0000, 0xED);
    let (texto, len) = c.dasm(0x0000);
    assert_eq!(texto, "");
    assert_eq!(len, 1);
}

#[test]
fn dasm_does_not_touch_state() {
    let mut c = CPU::new(0xFFFF);
    c.bus.escribir_byte(0x0000, 0x01);
    c.bus.escribir_byte(0x0001, 0x34);
    c.bus.escribir_byte(0x0002, 0x12);
    c.reg.set_hl(0x5555);
    let pc = c.reg.pc;
    let hl = c.reg.get_hl();
    let _ = c.dasm(0x0000);
    assert_eq!(c.reg.pc, pc);
    assert_eq!(c.reg.get_hl(), hl);
    assert_eq!(c.bus.leer_byte(0x0000), 0x01);
}

#[test]
fn dasm_call_and_jp_forms() {
    let mut c = CPU::new(0xFFFF);
    c.bus.escribir_byte(0x0000, 0xCD);
    c.bus.escribir_byte(0x0001, 0x34);
    c.bus.escribir_byte(0x0002, 0x12);
    let (texto, len) = c.dasm(0x0000);
    assert_eq!(texto, "CD 34 12      CALL $1234");
    assert_eq!(len, 3);

    c.bus.escribir_byte(0x0000, 0xC3);
    assert_eq!(c.dasm(0x0000).0, "C3 34 12      JP $1234");

    c.bus.escribir_byte(0x0000, 0xDB);
    c.bus.escribir_byte(0x0001, 0x7F);
    let (texto, len) = c.dasm(0x0000);
    assert_eq!(texto, "DB 7F         IN A,($7F)");
    assert_eq!(len, 2);
}
