//! The command protocol spoken to the attached board: every command is
//! framed as a fixed 5-byte packet — one command byte followed by four
//! parameter bytes, the unused ones zero — and answered by a single-byte
//! or length-prefixed acknowledgement. 16-bit parameters travel
//! high byte first.

use vstd::prelude::*;

use crate::registers::{spec_high, spec_low};

verus! {

/// The acknowledgement byte a successfully handled command earns.
pub const ACK_SUCCESS: u8 = 0xDD;

/// The acknowledgement byte of a failed command.
pub const ACK_ERROR: u8 = 0x00;

/// One command of the board protocol, with its parameters carried as
/// values rather than as shared byte constants.
#[derive(Clone, Copy, PartialEq, Eq, Structural, Debug)]
pub enum Comando {
    /// Ask the board to echo `dato` back.
    Echo { dato: u8 },
    /// Place `dato` on the board's data bus.
    EnviarByte { dato: u8 },
    /// Ask for the board's state byte.
    ObtenerStatus,
    /// Announce a memory write of `longitud` bytes starting at
    /// `direccion`; the bytes themselves follow the packet.
    EscribirMemoria { direccion: u16, longitud: u16 },
    /// Run the program at `direccion`.
    Ejecutar { direccion: u16 },
    /// Ask for `longitud` bytes of memory starting at `direccion`.
    LeerMemoria { direccion: u16, longitud: u16 },
    /// Reset the processor and wipe its memory.
    Reset,
    /// Reset the processor, leaving memory as it is.
    ResetSinModificarMemoria,
    /// Ask for a register dump.
    ObtenerRegistros,
    /// Start streaming captured bus data.
    IniciarCaptura,
    /// Stop streaming captured bus data.
    DetenerCaptura,
    /// Release the WAIT line.
    QuitarWait,
    /// Assert the WAIT line.
    PonerWait,
}

/// The command byte that opens a packet of the given command.
pub open spec fn spec_codigo(c: Comando) -> u8 {
    match c {
        Comando::Echo { .. } => 0x01,
        Comando::EnviarByte { .. } => 0x02,
        Comando::ObtenerStatus => 0x03,
        Comando::EscribirMemoria { .. } => 0x04,
        Comando::Ejecutar { .. } => 0x05,
        Comando::LeerMemoria { .. } => 0x06,
        Comando::Reset => 0x07,
        Comando::ResetSinModificarMemoria => 0x08,
        Comando::ObtenerRegistros => 0x09,
        Comando::IniciarCaptura => 0x0A,
        Comando::DetenerCaptura => 0x0B,
        Comando::QuitarWait => 0x0C,
        Comando::PonerWait => 0x0D,
    }
}

/// The four parameter bytes of a command's packet. An address or a length
/// is split high byte first; a single data byte rides in the last
/// position; unused positions are zero.
pub open spec fn spec_parametros(c: Comando) -> Seq<u8> {
    match c {
        Comando::Echo { dato } => seq![0u8, 0u8, 0u8, dato],
        Comando::EnviarByte { dato } => seq![0u8, 0u8, 0u8, dato],
        Comando::EscribirMemoria { direccion, longitud } => seq![
            spec_high(direccion),
            spec_low(direccion),
            spec_high(longitud),
            spec_low(longitud),
        ],
        Comando::Ejecutar { direccion } => seq![
            spec_high(direccion),
            spec_low(direccion),
            0u8,
            0u8,
        ],
        Comando::LeerMemoria { direccion, longitud } => seq![
            spec_high(direccion),
            spec_low(direccion),
            spec_high(longitud),
            spec_low(longitud),
        ],
        _ => seq![0u8, 0u8, 0u8, 0u8],
    }
}

/// The whole 5-byte packet of a command.
pub open spec fn spec_paquete(c: Comando) -> Seq<u8> {
    seq![spec_codigo(c)] + spec_parametros(c)
}

impl Comando {
    /// The command byte that opens this command's packet.
    pub fn codigo(&self) -> (b: u8)
        ensures
            b == spec_codigo(*self),
    {
        match self {
            Comando::Echo { .. } => 0x01,
            Comando::EnviarByte { .. } => 0x02,
            Comando::ObtenerStatus => 0x03,
            Comando::EscribirMemoria { .. } => 0x04,
            Comando::Ejecutar { .. } => 0x05,
            Comando::LeerMemoria { .. } => 0x06,
            Comando::Reset => 0x07,
            Comando::ResetSinModificarMemoria => 0x08,
            Comando::ObtenerRegistros => 0x09,
            Comando::IniciarCaptura => 0x0A,
            Comando::DetenerCaptura => 0x0B,
            Comando::QuitarWait => 0x0C,
            Comando::PonerWait => 0x0D,
        }
    }

    /// Frames this command as the 5-byte packet the transport sends.
    pub fn paquete(&self) -> (p: Vec<u8>)
        ensures
            p@ == spec_paquete(*self),
            p@.len() == 5,
    {
        let codigo = self.codigo();
        let mut p: Vec<u8> = Vec::new();
        p.push(codigo);
        match self {
            Comando::Echo { dato } => {
                p.push(0);
                p.push(0);
                p.push(0);
                p.push(*dato);
            },
            Comando::EnviarByte { dato } => {
                p.push(0);
                p.push(0);
                p.push(0);
                p.push(*dato);
            },
            Comando::EscribirMemoria { direccion, longitud } => {
                push_be_word(&mut p, *direccion);
                push_be_word(&mut p, *longitud);
            },
            Comando::Ejecutar { direccion } => {
                push_be_word(&mut p, *direccion);
                p.push(0);
                p.push(0);
            },
            Comando::LeerMemoria { direccion, longitud } => {
                push_be_word(&mut p, *direccion);
                push_be_word(&mut p, *longitud);
            },
            _ => {
                p.push(0);
                p.push(0);
                p.push(0);
                p.push(0);
            },
        }
        proof {
            assert(p@ =~= spec_paquete(*self));
        }
        p
    }
}

/// Appends a 16-bit value high byte first.
fn push_be_word(p: &mut Vec<u8>, v: u16)
    ensures
        final(p)@ == old(p)@ + seq![spec_high(v), spec_low(v)],
{
    p.push(((v & 0xFF00) >> 8) as u8);
    p.push((v & 0xFF) as u8);
    proof {
        assert(p@ =~= old(p)@ + seq![spec_high(v), spec_low(v)]);
    }
}

/// The state a board reports in answer to a status query.
#[derive(Clone, Copy, PartialEq, Eq, Structural, Debug)]
pub enum EstadoSistema {
    Idle,
    Running,
    Wait,
    Halted,
    /// Any status byte outside the defined range.
    Error,
}

/// The state encoded by a status byte: 0 idle, 1 running, 2 waiting,
/// 3 halted, anything else an error.
pub open spec fn spec_estado(b: u8) -> EstadoSistema {
    if b == 0 {
        EstadoSistema::Idle
    } else if b == 1 {
        EstadoSistema::Running
    } else if b == 2 {
        EstadoSistema::Wait
    } else if b == 3 {
        EstadoSistema::Halted
    } else {
        EstadoSistema::Error
    }
}

/// Decodes the single status byte a board answers with.
pub fn estado_de_byte(b: u8) -> (e: EstadoSistema)
    ensures
        e == spec_estado(b),
{
    match b {
        0 => EstadoSistema::Idle,
        1 => EstadoSistema::Running,
        2 => EstadoSistema::Wait,
        3 => EstadoSistema::Halted,
        _ => EstadoSistema::Error,
    }
}

impl EstadoSistema {
    /// The label the status display prints for this state.
    pub fn nombre(&self) -> (s: &'static str)
        ensures
            self is Idle ==> s@ == "Idle"@,
            self is Running ==> s@ == "Running"@,
            self is Wait ==> s@ == "Wait"@,
            self is Halted ==> s@ == "Halted"@,
            self is Error ==> s@ == "Error"@,
    {
        match self {
            EstadoSistema::Idle => "Idle",
            EstadoSistema::Running => "Running",
            EstadoSistema::Wait => "Wait",
            EstadoSistema::Halted => "Halted",
            EstadoSistema::Error => "Error",
        }
    }
}

/// One 11-byte frame of the board's capture stream, decoded into the bus
/// signals it carries.
#[derive(Clone, Copy, PartialEq, Eq, Structural, Debug)]
pub struct TramaCaptura {
    pub ciclo: u16,
    pub reloj: u8,
    pub direccion: u16,
    pub datos: u8,
    pub rd_pin: u8,
    pub wr_pin: u8,
    pub mreq_pin: u8,
    pub rfsh_pin: u8,
    pub reset_pin: u8,
}

/// Decodes an 11-byte capture frame: cycle counter high byte first, the
/// clock byte, the address high byte first, then the data byte and the
/// five control-pin bytes in order.
pub fn decodificar_trama(buffer: &Vec<u8>) -> (t: TramaCaptura)
    requires
        buffer@.len() == 11,
    ensures
        t.ciclo == crate::registers::spec_pair(buffer@[0], buffer@[1]),
        t.reloj == buffer@[2],
        t.direccion == crate::registers::spec_pair(buffer@[3], buffer@[4]),
        t.datos == buffer@[5],
        t.rd_pin == buffer@[6],
        t.wr_pin == buffer@[7],
        t.mreq_pin == buffer@[8],
        t.rfsh_pin == buffer@[9],
        t.reset_pin == buffer@[10],
{
    TramaCaptura {
        ciclo: (buffer[0] as u16) << 8 | buffer[1] as u16,
        reloj: buffer[2],
        direccion: (buffer[3] as u16) << 8 | buffer[4] as u16,
        datos: buffer[5],
        rd_pin: buffer[6],
        wr_pin: buffer[7],
        mreq_pin: buffer[8],
        rfsh_pin: buffer[9],
        reset_pin: buffer[10],
    }
}

} // verus!
