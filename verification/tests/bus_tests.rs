use z80core::bus::{Bus, BusError};

#[test]
fn r_le_dword() {
    let mut b = Bus::new(0xFFFF);
    b.escribir_byte(0x0000, 0xCC);
    b.escribir_byte(0x0001, 0xDD);
    b.escribir_byte(0x0002, 0xEE);
    b.escribir_byte(0x0003, 0xFF);
    assert_eq!(b.read_le_dword(0x00), 0xCCDDEEFF);
}

#[test]
fn read_invalid() {
    let mut b = Bus::new(0x7FFF);
    b.escribir_byte(0x8000, 0xFF);
    assert_eq!(b.leer_byte(0x8000), 0);
}

#[test]
fn write_romspace() {
    let mut b = Bus::new(0x7FFF);
    b.escribir_byte(0x0000, 0xFF);
    b.set_espacio_rom(0x0000, 0x000F);
    b.escribir_byte(0x0000, 0x00);
    assert_eq!(b.leer_byte(0x0000), 0xFF);
}

#[test]
fn clear_slice() {
    let mut b = Bus::new(0x000F);
    for m in 0..=15 {
        b.escribir_byte(m, 0xFF);
    }
    assert_eq!(b.leer_byte(0x000F), 0xFF);
    b.clear_mem_slice(0x0000, 0x000F);
    assert_eq!(b.leer_byte(0x000F), 0x00);
}

#[test]
fn write_then_read_back() {
    let mut b = Bus::new(0xFFFF);
    b.escribir_byte(0x1234, 0xA5);
    assert_eq!(b.leer_byte(0x1234), 0xA5);
    b.escribir_byte(0xFFFF, 0x42);
    assert_eq!(b.leer_byte(0xFFFF), 0x42);
}

#[test]
fn rom_window_edges() {
    let mut b = Bus::new(0xFFFF);
    b.set_espacio_rom(0x1000, 0x1FFF);
    b.escribir_byte(0x0FFF, 0x11);
    b.escribir_byte(0x1000, 0x22);
    b.escribir_byte(0x1FFF, 0x33);
    b.escribir_byte(0x2000, 0x44);
    assert_eq!(b.leer_byte(0x0FFF), 0x11);
    assert_eq!(b.leer_byte(0x1000), 0x00);
    assert_eq!(b.leer_byte(0x1FFF), 0x00);
    assert_eq!(b.leer_byte(0x2000), 0x44);
}

#[test]
fn word_little_endian() {
    let mut b = Bus::new(0xFFFF);
    b.escribir_byte(0x0100, 0x34);
    b.escribir_byte(0x0101, 0x12);
    assert_eq!(b.read_word(0x0100), 0x1234);
    assert_eq!(b.read_le_word(0x0100), 0x3412);
}

#[test]
fn word_read_out_of_bounds_is_zero() {
    let b = Bus::new(0x7FFF);
    assert_eq!(b.read_word(0x8000), 0);
    assert_eq!(b.read_le_word(0x8000), 0);
    assert_eq!(b.read_le_dword(0x8000), 0);
}

#[test]
fn write_word_stores_low_then_high() {
    let mut b = Bus::new(0xFFFF);
    b.write_word(0x2000, 0xABCD);
    assert_eq!(b.leer_byte(0x2000), 0xCD);
    assert_eq!(b.leer_byte(0x2001), 0xAB);
    assert_eq!(b.read_word(0x2000), 0xABCD);
}

#[test]
fn write_word_dropped_in_rom_window() {
    let mut b = Bus::new(0xFFFF);
    b.escribir_byte(0x3000, 0x55);
    b.escribir_byte(0x3001, 0x66);
    b.set_espacio_rom(0x3000, 0x30FF);
    b.write_word(0x3000, 0xABCD);
    assert_eq!(b.leer_byte(0x3000), 0x55);
    assert_eq!(b.leer_byte(0x3001), 0x66);
}

#[test]
fn write_word_out_of_bounds_is_noop() {
    let mut b = Bus::new(0x7FFF);
    b.write_word(0x9000, 0xABCD);
    assert_eq!(b.leer_byte(0x1000), 0);
}

#[test]
fn read_slice_contents() {
    let mut b = Bus::new(0x00FF);
    b.escribir_byte(0x0010, 0x01);
    b.escribir_byte(0x0011, 0x02);
    b.escribir_byte(0x0012, 0x03);
    let datos = b.read_mem_slice(0x0010, 0x0012);
    assert_eq!(datos, vec![0x01, 0x02, 0x03]);
}

#[test]
fn load_bin_copies_and_reports_size() {
    let mut b = Bus::new(0x00FF);
    let imagen = vec![0xDE, 0xAD, 0xBE, 0xEF];
    let r = b.load_bin(&imagen, 0x0040);
    assert_eq!(r, Ok(4));
    assert_eq!(b.leer_byte(0x0040), 0xDE);
    assert_eq!(b.leer_byte(0x0041), 0xAD);
    assert_eq!(b.leer_byte(0x0042), 0xBE);
    assert_eq!(b.leer_byte(0x0043), 0xEF);
}

#[test]
fn load_bin_too_large_is_rejected_whole() {
    let mut b = Bus::new(0x000F);
    let imagen = vec![0xAA; 20];
    let r = b.load_bin(&imagen, 0x0008);
    assert_eq!(r, Err(BusError::CapacidadExcedida));
    for m in 0..=15 {
        assert_eq!(b.leer_byte(m), 0);
    }
}

#[test]
fn load_bin_ignores_rom_window() {
    let mut b = Bus::new(0x00FF);
    b.set_espacio_rom(0x0000, 0x00FF);
    let imagen = vec![0x7E];
    assert_eq!(b.load_bin(&imagen, 0x0000), Ok(1));
    assert_eq!(b.leer_byte(0x0000), 0x7E);
}
