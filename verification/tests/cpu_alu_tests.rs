use z80core::cpu::CPU;

// Writes up to four bytes at the bottom of memory and runs one step from
// a freshly cleared halt state.
fn paso(cpu: &mut CPU, m0: u8, m1: u8, m2: u8, m3: u8) {
    cpu.halt = false;

    cpu.bus.escribir_byte(0, m0);
    cpu.bus.escribir_byte(1, m1);
    cpu.bus.escribir_byte(2, m2);
    cpu.bus.escribir_byte(3, m3);

    cpu.execute();
}

// 0 => false, 1 => true, 2 => either
fn espera_flags(cpu: &CPU, s: u8, z: u8, h: u8, p: u8, n: u8, c: u8) {
    let flags = [
        (s, cpu.reg.flags.s, "Sign"),
        (z, cpu.reg.flags.z, "Zero"),
        (h, cpu.reg.flags.h, "HalfCarry"),
        (p, cpu.reg.flags.p, "ParityOverflow"),
        (n, cpu.reg.flags.n, "AddSubtract"),
        (c, cpu.reg.flags.c, "Carry"),
    ];
    for (val, flag, name) in flags {
        match val {
            0 => assert!(!flag, "Flag {} es false", name),
            1 => assert!(flag, "Flag {} es true", name),
            _ => (),
        }
    }
}

#[test]
fn add_a_b_with_carry_out() {
    let mut c = CPU::new(0xFFFF);
    c.reg.a = 0xFF;
    c.reg.b = 0x02;
    paso(&mut c, 0x80, 0, 0, 0);
    assert_eq!(c.reg.a, 0x01);
    espera_flags(&c, 0, 0, 1, 0, 0, 1);
}

#[test]
fn add_a_b_signed_overflow() {
    // 0x7F + 0x01 overflows into the sign bit
    let mut c = CPU::new(0xFFFF);
    c.reg.a = 0x7F;
    c.reg.b = 0x01;
    paso(&mut c, 0x80, 0, 0, 0);
    assert_eq!(c.reg.a, 0x80);
    espera_flags(&c, 1, 0, 1, 1, 0, 0);
}

#[test]
fn adc_a_c_includes_the_carry() {
    let mut c = CPU::new(0xFFFF);
    c.reg.a = 0x10;
    c.reg.c = 0x20;
    c.reg.flags.c = true;
    paso(&mut c, 0x89, 0, 0, 0);
    assert_eq!(c.reg.a, 0x31);
    espera_flags(&c, 0, 0, 0, 0, 0, 0);
}

#[test]
fn sub_a_d_borrow() {
    let mut c = CPU::new(0xFFFF);
    c.reg.a = 0x10;
    c.reg.d = 0x20;
    paso(&mut c, 0x92, 0, 0, 0);
    assert_eq!(c.reg.a, 0xF0);
    espera_flags(&c, 1, 0, 0, 0, 1, 1);
}

#[test]
fn sub_a_a_is_zero() {
    let mut c = CPU::new(0xFFFF);
    c.reg.a = 0x3C;
    paso(&mut c, 0x97, 0, 0, 0);
    assert_eq!(c.reg.a, 0x00);
    espera_flags(&c, 0, 1, 0, 0, 1, 0);
}

#[test]
fn sbc_a_e_includes_the_borrow() {
    let mut c = CPU::new(0xFFFF);
    c.reg.a = 0x10;
    c.reg.e = 0x05;
    c.reg.flags.c = true;
    paso(&mut c, 0x9B, 0, 0, 0);
    assert_eq!(c.reg.a, 0x0A);
    espera_flags(&c, 0, 0, 1, 0, 1, 0);
}

#[test]
fn and_h_masks_and_sets_half_carry() {
    let mut c = CPU::new(0xFFFF);
    c.reg.a = 0b1100_1100;
    c.reg.h = 0b1010_1010;
    paso(&mut c, 0xA4, 0, 0, 0);
    assert_eq!(c.reg.a, 0b1000_1000);
    // 0x88 has two set bits: even parity
    espera_flags(&c, 1, 0, 1, 1, 0, 0);
}

#[test]
fn xor_a_clears_the_accumulator() {
    let mut c = CPU::new(0xFFFF);
    c.reg.a = 0x5A;
    paso(&mut c, 0xAF, 0, 0, 0);
    assert_eq!(c.reg.a, 0x00);
    espera_flags(&c, 0, 1, 0, 1, 0, 0);
}

#[test]
fn or_l_merges_bits() {
    let mut c = CPU::new(0xFFFF);
    c.reg.a = 0b0000_0001;
    c.reg.l = 0b1000_0000;
    paso(&mut c, 0xB5, 0, 0, 0);
    assert_eq!(c.reg.a, 0b1000_0001);
    // 0x81 has two set bits: even parity
    espera_flags(&c, 1, 0, 0, 1, 0, 0);
}

#[test]
fn cp_b_sets_flags_but_keeps_a() {
    let mut c = CPU::new(0xFFFF);
    c.reg.a = 0x10;
    c.reg.b = 0x10;
    paso(&mut c, 0xB8, 0, 0, 0);
    assert_eq!(c.reg.a, 0x10);
    espera_flags(&c, 0, 1, 0, 0, 1, 0);

    let mut c = CPU::new(0xFFFF);
    c.reg.a = 0x10;
    c.reg.b = 0x20;
    paso(&mut c, 0xB8, 0, 0, 0);
    assert_eq!(c.reg.a, 0x10);
    espera_flags(&c, 1, 0, 0, 0, 1, 1);
}

#[test]
fn add_a_phl_reads_memory() {
    let mut c = CPU::new(0xFFFF);
    c.bus.escribir_byte(0x2000, 0x22);
    c.reg.a = 0x11;
    c.reg.set_hl(0x2000);
    paso(&mut c, 0x86, 0, 0, 0);
    assert_eq!(c.reg.a, 0x33);
}

#[test]
fn alu_immediate_forms() {
    let mut c = CPU::new(0xFFFF);
    c.reg.a = 0x11;
    paso(&mut c, 0xC6, 0x22, 0, 0);
    assert_eq!(c.reg.a, 0x33);
    assert_eq!(c.reg.pc, 0x0002);

    let mut c = CPU::new(0xFFFF);
    c.reg.a = 0x30;
    paso(&mut c, 0xD6, 0x01, 0, 0);
    assert_eq!(c.reg.a, 0x2F);
    espera_flags(&c, 0, 0, 1, 0, 1, 0);

    let mut c = CPU::new(0xFFFF);
    c.reg.a = 0xF0;
    paso(&mut c, 0xE6, 0x3C, 0, 0);
    assert_eq!(c.reg.a, 0x30);

    let mut c = CPU::new(0xFFFF);
    c.reg.a = 0x0F;
    paso(&mut c, 0xEE, 0xFF, 0, 0);
    assert_eq!(c.reg.a, 0xF0);

    let mut c = CPU::new(0xFFFF);
    c.reg.a = 0x0F;
    paso(&mut c, 0xF6, 0xF0, 0, 0);
    assert_eq!(c.reg.a, 0xFF);

    let mut c = CPU::new(0xFFFF);
    c.reg.a = 0x10;
    paso(&mut c, 0xFE, 0x10, 0, 0);
    assert_eq!(c.reg.a, 0x10);
    espera_flags(&c, 0, 1, 0, 0, 1, 0);
}

#[test]
fn jp_nn_sets_pc() {
    let mut c = CPU::new(0xFFFF);
    paso(&mut c, 0xC3, 0x34, 0x12, 0);
    assert_eq!(c.reg.pc, 0x1234);
}

#[test]
fn jp_cc_taken_and_not_taken() {
    let mut c = CPU::new(0xFFFF);
    c.reg.flags.z = true;
    paso(&mut c, 0xCA, 0x34, 0x12, 0);
    assert_eq!(c.reg.pc, 0x1234);

    let mut c = CPU::new(0xFFFF);
    c.reg.flags.z = false;
    paso(&mut c, 0xCA, 0x34, 0x12, 0);
    assert_eq!(c.reg.pc, 0x0003);
}

#[test]
fn jp_hl_uses_the_live_register() {
    let mut c = CPU::new(0xFFFF);
    c.reg.set_hl(0xBEEF);
    paso(&mut c, 0xE9, 0, 0, 0);
    assert_eq!(c.reg.pc, 0xBEEF);
}

#[test]
fn call_pushes_the_return_address() {
    let mut c = CPU::new(0xFFFF);
    c.reg.sp = 0x8000;
    paso(&mut c, 0xCD, 0x34, 0x12, 0);
    assert_eq!(c.reg.pc, 0x1234);
    assert_eq!(c.reg.sp, 0x7FFE);
    assert_eq!(c.bus.leer_byte(0x7FFE), 0x03);
    assert_eq!(c.bus.leer_byte(0x7FFF), 0x00);
}

#[test]
fn call_cc_not_taken_just_advances() {
    let mut c = CPU::new(0xFFFF);
    c.reg.sp = 0x8000;
    c.reg.flags.c = false;
    paso(&mut c, 0xDC, 0x34, 0x12, 0);
    assert_eq!(c.reg.pc, 0x0003);
    assert_eq!(c.reg.sp, 0x8000);
}

#[test]
fn ret_pops_the_return_address() {
    let mut c = CPU::new(0xFFFF);
    c.reg.sp = 0x7FFE;
    c.bus.escribir_byte(0x7FFE, 0x03);
    c.bus.escribir_byte(0x7FFF, 0x00);
    paso(&mut c, 0xC9, 0, 0, 0);
    assert_eq!(c.reg.pc, 0x0003);
    assert_eq!(c.reg.sp, 0x8000);
}

#[test]
fn call_then_ret_round_trip() {
    // a call followed by a return lands on the instruction after the call
    let mut c = CPU::new(0xFFFF);
    c.reg.sp = 0x8000;
    c.bus.escribir_byte(0x0000, 0xCD);
    c.bus.escribir_byte(0x0001, 0x00);
    c.bus.escribir_byte(0x0002, 0x20);
    c.bus.escribir_byte(0x2000, 0xC9);
    c.execute();
    assert_eq!(c.reg.pc, 0x2000);
    c.execute();
    assert_eq!(c.reg.pc, 0x0003);
    assert_eq!(c.reg.sp, 0x8000);
}

#[test]
fn ret_cc_taken_and_not_taken() {
    let mut c = CPU::new(0xFFFF);
    c.reg.sp = 0x7FFE;
    c.bus.escribir_byte(0x7FFE, 0x34);
    c.bus.escribir_byte(0x7FFF, 0x12);
    c.reg.flags.z = true;
    paso(&mut c, 0xC8, 0, 0, 0);
    assert_eq!(c.reg.pc, 0x1234);
    assert_eq!(c.reg.sp, 0x8000);

    let mut c = CPU::new(0xFFFF);
    c.reg.sp = 0x7FFE;
    c.reg.flags.z = false;
    paso(&mut c, 0xC8, 0, 0, 0);
    assert_eq!(c.reg.pc, 0x0001);
    assert_eq!(c.reg.sp, 0x7FFE);
}

#[test]
fn rst_jumps_to_the_vector() {
    let mut c = CPU::new(0xFFFF);
    c.reg.sp = 0x8000;
    c.bus.escribir_byte(0x0100, 0xDF);
    c.reg.pc = 0x0100;
    c.execute();
    assert_eq!(c.reg.pc, 0x0018);
    assert_eq!(c.reg.sp, 0x7FFE);
    assert_eq!(c.bus.leer_byte(0x7FFE), 0x01);
    assert_eq!(c.bus.leer_byte(0x7FFF), 0x01);
}

#[test]
fn push_and_pop_bc() {
    let mut c = CPU::new(0xFFFF);
    c.reg.sp = 0x8000;
    c.reg.set_bc(0x1234);
    paso(&mut c, 0xC5, 0, 0, 0);
    assert_eq!(c.reg.sp, 0x7FFE);
    assert_eq!(c.bus.leer_byte(0x7FFE), 0x34);
    assert_eq!(c.bus.leer_byte(0x7FFF), 0x12);

    c.reg.set_bc(0);
    c.reg.pc = 0x0000;
    c.bus.escribir_byte(0x0000, 0xC1);
    c.execute();
    assert_eq!(c.reg.get_bc(), 0x1234);
    assert_eq!(c.reg.sp, 0x8000);
}

#[test]
fn push_and_pop_af_carry_the_flag_byte() {
    let mut c = CPU::new(0xFFFF);
    c.reg.sp = 0x8000;
    c.reg.a = 0x12;
    c.reg.flags.set_from_byte(0xA5);
    paso(&mut c, 0xF5, 0, 0, 0);
    assert_eq!(c.bus.leer_byte(0x7FFF), 0x12);
    assert_eq!(c.bus.leer_byte(0x7FFE), 0xA5);

    c.reg.a = 0;
    c.reg.flags.set_from_byte(0);
    c.reg.pc = 0x0000;
    c.bus.escribir_byte(0x0000, 0xF1);
    c.execute();
    assert_eq!(c.reg.a, 0x12);
    assert_eq!(c.reg.flags.to_byte(), 0xA5);
    assert_eq!(c.reg.sp, 0x8000);
}

#[test]
fn ex_de_hl_swaps_pairs() {
    let mut c = CPU::new(0xFFFF);
    c.reg.set_de(0x1122);
    c.reg.set_hl(0x3344);
    paso(&mut c, 0xEB, 0, 0, 0);
    assert_eq!(c.reg.get_de(), 0x3344);
    assert_eq!(c.reg.get_hl(), 0x1122);
}

#[test]
fn exx_swaps_with_the_shadow_set() {
    let mut c = CPU::new(0xFFFF);
    c.reg.set_bc(0x1111);
    c.reg.set_de(0x2222);
    c.reg.set_hl(0x3333);
    c.alt.set_bc(0xAAAA);
    c.alt.set_de(0xBBBB);
    c.alt.set_hl(0xCCCC);
    c.reg.a = 0x99;
    paso(&mut c, 0xD9, 0, 0, 0);
    assert_eq!(c.reg.get_bc(), 0xAAAA);
    assert_eq!(c.reg.get_de(), 0xBBBB);
    assert_eq!(c.reg.get_hl(), 0xCCCC);
    assert_eq!(c.alt.get_bc(), 0x1111);
    assert_eq!(c.alt.get_de(), 0x2222);
    assert_eq!(c.alt.get_hl(), 0x3333);
    // the accumulator is not part of EXX
    assert_eq!(c.reg.a, 0x99);
}

#[test]
fn ex_psp_hl_swaps_with_the_stack_top() {
    let mut c = CPU::new(0xFFFF);
    c.reg.sp = 0x7000;
    c.bus.escribir_byte(0x7000, 0x11);
    c.bus.escribir_byte(0x7001, 0x22);
    c.reg.set_hl(0x3344);
    paso(&mut c, 0xE3, 0, 0, 0);
    assert_eq!(c.reg.get_hl(), 0x2211);
    assert_eq!(c.bus.leer_byte(0x7000), 0x44);
    assert_eq!(c.bus.leer_byte(0x7001), 0x33);
    assert_eq!(c.reg.sp, 0x7000);
}

#[test]
fn ld_sp_hl_copies_the_pair() {
    let mut c = CPU::new(0xFFFF);
    c.reg.set_hl(0x9ABC);
    paso(&mut c, 0xF9, 0, 0, 0);
    assert_eq!(c.reg.sp, 0x9ABC);
}
