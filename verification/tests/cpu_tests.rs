use z80core::cpu::{jump_target, CPU};

// Writes up to four bytes at the bottom of memory and runs one step from
// a freshly cleared halt state.
fn ejecutar(cpu: &mut CPU, m0: u8, m1: u8, m2: u8, m3: u8) {
    cpu.halt = false;

    cpu.bus.escribir_byte(0, m0);
    cpu.bus.escribir_byte(1, m1);
    cpu.bus.escribir_byte(2, m2);
    cpu.bus.escribir_byte(3, m3);

    cpu.execute();
}

// 0 => false, 1 => true, 2 => either
// s(Sign)  z(Zero)  h(Halfcarry)  pv(Parityoverflow)  n(AddSubstract)  c(Carry)
fn prueba_flags(
    cpu: &CPU,
    sign: u8,
    zero: u8,
    half_carry: u8,
    parity_overflow: u8,
    add_substract: u8,
    carry: u8,
) {
    let flags = [
        (sign, cpu.reg.flags.s, "Sign"),
        (zero, cpu.reg.flags.z, "Zero"),
        (half_carry, cpu.reg.flags.h, "HalfCarry"),
        (parity_overflow, cpu.reg.flags.p, "ParityOverflow"),
        (add_substract, cpu.reg.flags.n, "AddSubtract"),
        (carry, cpu.reg.flags.c, "Carry"),
    ];

    for (val, flag, name) in flags {
        match val {
            0 => assert!(!flag, "Flag {} es false", name),
            1 => assert!(flag, "Flag {} es true", name),
            _ => (),
        }
    }
}

#[test]
fn nop() {
    let mut c = CPU::new(0xFFFF);
    c.bus.escribir_byte(0x0000, 0x00);

    c.execute();

    assert_eq!(c.reg.pc, 0x01);
}

#[test]
fn ld_bc_nn() {
    let mut c = CPU::new(0xFFFF);
    c.bus.escribir_byte(0x0000, 0x01);
    c.bus.escribir_byte(0x0001, 0xFE);
    c.bus.escribir_byte(0x0002, 0xA8);
    c.bus.escribir_byte(0x0003, 0x00);

    c.execute();

    assert_eq!(c.reg.get_bc(), 0xA8FE);
}

#[test]
fn ld_0bc0_a() {
    let mut c = CPU::new(0xFFFF);

    c.reg.a = 0xF3;

    c.reg.set_bc(0xEF10);

    ejecutar(&mut c, 0x02, 0, 0, 0);

    assert_eq!(c.bus.leer_byte(0xEF10), 0xF3);
}

#[test]
fn inc_bc() {
    let mut c = CPU::new(0xFFFF);

    c.reg.set_bc(0xEF10);

    ejecutar(&mut c, 0x03, 0, 0, 0);

    assert_eq!(c.reg.get_bc(), 0xEF11);
}

#[test]
fn inc_b() {
    let mut c = CPU::new(0xFFFF);

    c.reg.b = 0xFF;

    ejecutar(&mut c, 0x04, 0, 0, 0);

    assert_eq!(c.reg.b, 0x00);

    prueba_flags(&c, 0, 1, 1, 0, 0, 2);
}

#[test]
fn dec_b() {
    let mut c = CPU::new(0xFFFF);

    c.reg.b = 0x00;

    ejecutar(&mut c, 0x05, 0, 0, 0);

    assert_eq!(c.reg.b, 0xFF);

    prueba_flags(&c, 1, 0, 1, 0, 1, 2);
}

#[test]
fn ld_b_n() {
    let mut c = CPU::new(0xFFFF);

    ejecutar(&mut c, 0x06, 0x5A, 0, 0);

    assert_eq!(c.reg.b, 0x5A);
}

#[test]
fn rlca() {
    let mut c = CPU::new(0xFFFF);

    c.reg.a = 0b1000_0000;

    ejecutar(&mut c, 0x07, 0, 0, 0);

    assert_eq!(c.reg.a, 0x01);

    prueba_flags(&c, 2, 2, 0, 2, 0, 1);
}

#[test]
fn ex_af_afp() {
    let mut c = CPU::new(0xFFFF);

    // AF = 0x3412
    c.reg.a = 0x34;
    c.reg.flags.set_from_byte(0x12);

    // AF' = 0xEFAB
    c.alt.a = 0xEF;
    c.alt.flags.set_from_byte(0xAB);

    ejecutar(&mut c, 0x08, 0, 0, 0);

    assert_eq!(c.reg.a, 0xEF);
    assert_eq!(c.reg.flags.to_byte(), 0xAB);

    assert_eq!(c.alt.a, 0x34);
    assert_eq!(c.alt.flags.to_byte(), 0x12);
}

#[test]
fn add_hl_bc() {
    let mut c = CPU::new(0xFFFF);

    // HL = 0x3412
    c.reg.set_hl(0x3412);

    // BC = 0xB5A4
    c.reg.set_bc(0xB5A4);

    ejecutar(&mut c, 0x09, 0, 0, 0);

    assert_eq!(c.reg.get_hl(), 0xE9B6);

    prueba_flags(&c, 2, 2, 0, 2, 0, 0);
}

#[test]
fn ld_a_0bc0() {
    let mut c = CPU::new(0xFFFF);

    c.bus.escribir_byte(0xEF10, 0xA5);

    c.reg.set_bc(0xEF10);

    ejecutar(&mut c, 0x0A, 0, 0, 0);

    assert_eq!(c.reg.a, 0xA5);
}

#[test]
fn dec_bc() {
    let mut c = CPU::new(0xFFFF);

    c.reg.set_bc(0xEF10);

    ejecutar(&mut c, 0x0B, 0, 0, 0);

    assert_eq!(c.reg.b, 0xEF);
    assert_eq!(c.reg.c, 0x0F);
}

#[test]
fn inc_c() {
    let mut c = CPU::new(0xFFFF);

    c.reg.c = 0xFF;

    ejecutar(&mut c, 0x0C, 0, 0, 0);

    assert_eq!(c.reg.c, 0x00);

    prueba_flags(&c, 0, 1, 1, 0, 0, 2);
}

#[test]
fn dec_c() {
    let mut c = CPU::new(0xFFFF);

    c.reg.c = 0x00;

    ejecutar(&mut c, 0x0D, 0, 0, 0);

    assert_eq!(c.reg.c, 0xFF);

    prueba_flags(&c, 1, 0, 1, 0, 1, 2);
}

#[test]
fn ld_c_n() {
    let mut c = CPU::new(0xFFFF);

    ejecutar(&mut c, 0x0E, 0x5A, 0, 0);

    assert_eq!(c.reg.c, 0x5A);
}

#[test]
fn rrca() {
    let mut c = CPU::new(0xFFFF);

    c.reg.a = 0b0000_0001;

    ejecutar(&mut c, 0x0F, 0, 0, 0);

    assert_eq!(c.reg.a, 0b1000_0000);

    prueba_flags(&c, 2, 2, 0, 2, 0, 1);
}

#[test]
fn jr_backwards_two_lands_on_itself() {
    // JR with displacement 0xFE (-2) at 0x1000 targets 0x1000 + 2 - 2
    assert_eq!(jump_target(0x1000, 0xFE), 0x1000);

    let mut c = CPU::new(0xFFFF);
    c.bus.escribir_byte(0x1000, 0x18);
    c.bus.escribir_byte(0x1001, 0xFE);
    c.reg.pc = 0x1000;
    c.execute();
    assert_eq!(c.reg.pc, 0x1000);
}

#[test]
fn jr_forward() {
    assert_eq!(jump_target(0x1000, 0x05), 0x1007);

    let mut c = CPU::new(0xFFFF);
    c.bus.escribir_byte(0x0000, 0x18);
    c.bus.escribir_byte(0x0001, 0x10);
    c.execute();
    assert_eq!(c.reg.pc, 0x0012);
}

#[test]
fn jr_nz_taken_and_not_taken() {
    let mut c = CPU::new(0xFFFF);
    c.reg.flags.z = true;
    ejecutar(&mut c, 0x20, 0x03, 0, 0);
    assert_eq!(c.reg.pc, 0x0002);

    let mut c = CPU::new(0xFFFF);
    c.reg.flags.z = false;
    ejecutar(&mut c, 0x20, 0x03, 0, 0);
    assert_eq!(c.reg.pc, 0x0005);
}

#[test]
fn jr_c_taken_and_not_taken() {
    let mut c = CPU::new(0xFFFF);
    c.reg.flags.c = false;
    ejecutar(&mut c, 0x38, 0x03, 0, 0);
    assert_eq!(c.reg.pc, 0x0002);

    let mut c = CPU::new(0xFFFF);
    c.reg.flags.c = true;
    ejecutar(&mut c, 0x38, 0x03, 0, 0);
    assert_eq!(c.reg.pc, 0x0005);
}

#[test]
fn djnz_loops_until_b_reaches_zero() {
    let mut c = CPU::new(0xFFFF);
    c.reg.b = 0x02;
    ejecutar(&mut c, 0x10, 0xFE, 0, 0);
    assert_eq!(c.reg.b, 0x01);
    assert_eq!(c.reg.pc, 0x0000);

    c.execute();
    assert_eq!(c.reg.b, 0x00);
    assert_eq!(c.reg.pc, 0x0002);
}

#[test]
fn halt_stops_the_machine() {
    let mut c = CPU::new(0xFFFF);
    c.bus.escribir_byte(0x0000, 0x76);
    c.execute();
    assert!(c.halt);
    assert_eq!(c.reg.pc, 0x0001);

    // while halted every step is a no-op
    c.reg.b = 0x07;
    c.execute();
    assert_eq!(c.reg.pc, 0x0001);
    assert_eq!(c.reg.b, 0x07);
}

#[test]
fn reset_wipes_memory_and_registers() {
    let mut c = CPU::new(0x00FF);
    c.bus.escribir_byte(0x0010, 0xAA);
    c.reg.pc = 0x1234;
    c.reg.a = 0x55;
    c.halt = true;
    c.reset();
    assert_eq!(c.reg.pc, 0);
    assert_eq!(c.reg.a, 0);
    assert!(!c.halt);
    assert_eq!(c.bus.leer_byte(0x0010), 0);
}

#[test]
fn reset_without_wipe_keeps_memory() {
    let mut c = CPU::new(0x00FF);
    c.bus.escribir_byte(0x0010, 0xAA);
    c.reg.pc = 0x1234;
    c.halt = true;
    c.reset_sin_modificar_memoria();
    assert_eq!(c.reg.pc, 0);
    assert!(!c.halt);
    assert_eq!(c.bus.leer_byte(0x0010), 0xAA);
}

// The opcodes whose step may send the program counter somewhere other
// than the next instruction.
fn transfers_control(op: u8) -> bool {
    matches!(
        op,
        0xC3 | 0xC2 | 0xCA | 0xD2 | 0xDA | 0xE2 | 0xEA | 0xF2 | 0xFA | 0xE9 | 0xCD | 0xC4 | 0xCC
            | 0xD4 | 0xDC | 0xE4 | 0xEC | 0xF4 | 0xFC | 0xC9 | 0xC0 | 0xC8 | 0xD0 | 0xD8 | 0xE0
            | 0xE8 | 0xF0 | 0xF8 | 0xC7 | 0xCF | 0xD7 | 0xDF | 0xE7 | 0xEF | 0xF7 | 0xFF
    )
}

#[test]
fn step_advances_by_the_disassembler_length() {
    // jumps, calls, returns and restarts aside, every opcode must move
    // the program counter exactly as far as the length the disassembler
    // reports; with displacement 0 even the relative jumps land there
    for op in 0..=255u8 {
        if transfers_control(op) {
            continue;
        }
        let mut c = CPU::new(0xFFFF);
        c.bus.escribir_byte(0x4000, op);
        c.reg.pc = 0x4000;
        let (_, len) = c.dasm(0x4000);
        c.execute();
        assert_eq!(c.reg.pc, 0x4000 + len as u16, "opcode {:#04X}", op);
    }
}

#[test]
fn prefix_opcode_only_advances_pc() {
    let mut c = CPU::new(0xFFFF);
    c.reg.a = 0x12;
    c.reg.set_hl(0x3456);
    ejecutar(&mut c, 0xED, 0, 0, 0);
    assert_eq!(c.reg.pc, 0x0001);
    assert_eq!(c.reg.a, 0x12);
    assert_eq!(c.reg.get_hl(), 0x3456);
}

#[test]
fn program_sums_with_djnz() {
    // LD B,5 / ADD A,B / DJNZ -3 / HALT adds 5+4+3+2+1 into A
    let mut c = CPU::new(0xFFFF);
    c.bus.escribir_byte(0x0000, 0x06);
    c.bus.escribir_byte(0x0001, 0x05);
    c.bus.escribir_byte(0x0002, 0x80);
    c.bus.escribir_byte(0x0003, 0x10);
    c.bus.escribir_byte(0x0004, 0xFD);
    c.bus.escribir_byte(0x0005, 0x76);
    let mut pasos: u32 = 0;
    while !c.halt && pasos < 100 {
        c.execute();
        pasos += 1;
    }
    assert!(c.halt);
    assert_eq!(c.reg.a, 15);
    assert_eq!(c.reg.b, 0);
    assert_eq!(c.reg.pc, 0x0006);
}

#[test]
fn execute_reports_cycles() {
    let mut c = CPU::new(0xFFFF);
    c.bus.escribir_byte(0x0000, 0x00);
    assert_eq!(c.execute(), 4);

    let mut c = CPU::new(0xFFFF);
    c.bus.escribir_byte(0x0000, 0x01);
    assert_eq!(c.execute(), 10);

    let mut c = CPU::new(0xFFFF);
    c.bus.escribir_byte(0x0000, 0x09);
    assert_eq!(c.execute(), 11);

    let mut c = CPU::new(0xFFFF);
    c.bus.escribir_byte(0x0000, 0x18);
    assert_eq!(c.execute(), 12);
}

#[test]
fn rom_window_blocks_ld_pbc_a() {
    let mut c = CPU::new(0xFFFF);
    c.bus.escribir_byte(0x5000, 0x99);
    c.bus.set_espacio_rom(0x5000, 0x5FFF);
    c.reg.a = 0x11;
    c.reg.set_bc(0x5000);
    ejecutar(&mut c, 0x02, 0, 0, 0);
    assert_eq!(c.bus.leer_byte(0x5000), 0x99);
}
