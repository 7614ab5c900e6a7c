use z80core::protocol::{
    decodificar_trama, estado_de_byte, Comando, EstadoSistema, ACK_ERROR, ACK_SUCCESS,
};

#[test]
fn packet_is_five_bytes_with_command_first() {
    let p = Comando::ObtenerStatus.paquete();
    assert_eq!(p, vec![0x03, 0x00, 0x00, 0x00, 0x00]);

    let p = Comando::Reset.paquete();
    assert_eq!(p, vec![0x07, 0x00, 0x00, 0x00, 0x00]);

    let p = Comando::ResetSinModificarMemoria.paquete();
    assert_eq!(p, vec![0x08, 0x00, 0x00, 0x00, 0x00]);

    let p = Comando::ObtenerRegistros.paquete();
    assert_eq!(p, vec![0x09, 0x00, 0x00, 0x00, 0x00]);

    let p = Comando::IniciarCaptura.paquete();
    assert_eq!(p, vec![0x0A, 0x00, 0x00, 0x00, 0x00]);

    let p = Comando::DetenerCaptura.paquete();
    assert_eq!(p, vec![0x0B, 0x00, 0x00, 0x00, 0x00]);

    let p = Comando::QuitarWait.paquete();
    assert_eq!(p, vec![0x0C, 0x00, 0x00, 0x00, 0x00]);

    let p = Comando::PonerWait.paquete();
    assert_eq!(p, vec![0x0D, 0x00, 0x00, 0x00, 0x00]);
}

#[test]
fn echo_and_send_byte_ride_in_the_last_parameter() {
    let p = Comando::Echo { dato: 0xAA }.paquete();
    assert_eq!(p, vec![0x01, 0x00, 0x00, 0x00, 0xAA]);

    let p = Comando::EnviarByte { dato: 0xBB }.paquete();
    assert_eq!(p, vec![0x02, 0x00, 0x00, 0x00, 0xBB]);
}

#[test]
fn addresses_travel_high_byte_first() {
    let p = Comando::EscribirMemoria { direccion: 0x1234, longitud: 0x0010 }.paquete();
    assert_eq!(p, vec![0x04, 0x12, 0x34, 0x00, 0x10]);

    let p = Comando::Ejecutar { direccion: 0xA55A }.paquete();
    assert_eq!(p, vec![0x05, 0xA5, 0x5A, 0x00, 0x00]);

    let p = Comando::LeerMemoria { direccion: 0x8000, longitud: 0x0100 }.paquete();
    assert_eq!(p, vec![0x06, 0x80, 0x00, 0x01, 0x00]);
}

#[test]
fn status_byte_decodes() {
    assert_eq!(estado_de_byte(0), EstadoSistema::Idle);
    assert_eq!(estado_de_byte(1), EstadoSistema::Running);
    assert_eq!(estado_de_byte(2), EstadoSistema::Wait);
    assert_eq!(estado_de_byte(3), EstadoSistema::Halted);
    for b in 4..=255u8 {
        assert_eq!(estado_de_byte(b), EstadoSistema::Error);
    }
    assert_eq!(estado_de_byte(1).nombre(), "Running");
    assert_eq!(estado_de_byte(0xFF).nombre(), "Error");
}

#[test]
fn ack_values() {
    assert_eq!(ACK_SUCCESS, 0xDD);
    assert_eq!(ACK_ERROR, 0x00);
}

#[test]
fn capture_frame_decodes_fields() {
    let buffer = vec![
        0x12, 0x34, // ciclo
        0x07, // reloj
        0xAB, 0xCD, // direccion
        0x5E, // datos
        1, 0, 1, 0, 1, // pins
    ];
    let t = decodificar_trama(&buffer);
    assert_eq!(t.ciclo, 0x1234);
    assert_eq!(t.reloj, 0x07);
    assert_eq!(t.direccion, 0xABCD);
    assert_eq!(t.datos, 0x5E);
    assert_eq!(t.rd_pin, 1);
    assert_eq!(t.wr_pin, 0);
    assert_eq!(t.mreq_pin, 1);
    assert_eq!(t.rfsh_pin, 0);
    assert_eq!(t.reset_pin, 1);
}

#[test]
fn signed_displacement_magnitude() {
    assert_eq!(z80core::bit::signed_to_abs(0x00), 0x00);
    assert_eq!(z80core::bit::signed_to_abs(0x7F), 0x7F);
    assert_eq!(z80core::bit::signed_to_abs(0x80), 0x80);
    assert_eq!(z80core::bit::signed_to_abs(0xFE), 0x02);
    assert_eq!(z80core::bit::signed_to_abs(0xFF), 0x01);
}

#[test]
fn bit_get_set_clear() {
    assert!(z80core::bit::get(0b1000_0000, 7));
    assert!(!z80core::bit::get(0b0111_1111, 7));
    assert_eq!(z80core::bit::set(0, 3), 0b0000_1000);
    assert_eq!(z80core::bit::clear(0xFF, 0), 0xFE);
}
