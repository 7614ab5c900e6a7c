//! The memory bus: a flat byte-addressable store of a fixed size with an
//! optional read-only window.
//!
//! Two error philosophies coexist on purpose. Point accesses degrade
//! silently — a read beyond the top of the address space yields 0 and a
//! write there, or into the read-only window, is dropped — because that is
//! what the hardware bus does. Ranged administrative operations are strict:
//! their bounds are the caller's responsibility and appear as
//! preconditions, and a bulk load that would run past the top of memory is
//! reported as an error instead of being performed.

use vstd::prelude::*;

verus! {

/// Start and end (both inclusive) of the read-only (ROM) window.
struct ROMEspacio {
    pub inicio: u16,
    pub fin: u16,
}

/// The Z80 memory map: `espacio_direcc` holds one byte per address and
/// `espacio_rom`, when set, marks the window writes may not touch.
pub struct Bus {
    espacio_direcc: Vec<u8>,
    espacio_rom: Option<ROMEspacio>,
}

/// Mathematical contents of a bus: the byte at every address, and the
/// read-only window if one was declared.
#[verifier::ext_equal]
pub struct BusView {
    pub mem: Seq<u8>,
    pub rom: Option<(u16, u16)>,
}

impl View for Bus {
    type V = BusView;

    closed spec fn view(&self) -> BusView {
        BusView {
            mem: self.espacio_direcc@,
            rom: match self.espacio_rom {
                Some(ref r) => Some((r.inicio, r.fin)),
                None => None,
            },
        }
    }
}

/// Whether `direccion` lies inside the declared read-only window.
pub open spec fn in_rom(bv: BusView, direccion: u16) -> bool {
    match bv.rom {
        Some((inicio, fin)) => inicio <= direccion && direccion <= fin,
        None => false,
    }
}

/// The byte a read of `direccion` yields: the stored byte in bounds, 0
/// beyond the top of the address space.
pub open spec fn bus_byte(bv: BusView, direccion: u16) -> u8 {
    if direccion < bv.mem.len() {
        bv.mem[direccion as int]
    } else {
        0
    }
}

/// The contents after a write of `data` at `direccion`: unchanged when the
/// address is out of bounds or inside the read-only window, otherwise the
/// same bytes with that one replaced.
pub open spec fn bus_after_write(bv: BusView, direccion: u16, data: u8) -> BusView {
    if direccion < bv.mem.len() && !in_rom(bv, direccion) {
        BusView { mem: bv.mem.update(direccion as int, data), ..bv }
    } else {
        bv
    }
}

impl Bus {
    /// A zero-filled bus whose top (highest addressable) address is `size`.
    pub fn new(size: u16) -> (bus: Bus)
        ensures
            bus@.mem.len() == size as int + 1,
            forall|i: int| 0 <= i < bus@.mem.len() ==> bus@.mem[i] == 0,
            bus@.rom is None,
    {
        let len: usize = (size as usize) + 1;
        let mut espacio: Vec<u8> = Vec::new();
        let mut m: usize = 0;
        while m < len
            invariant
                m <= len,
                espacio@.len() == m,
                forall|i: int| 0 <= i < m ==> espacio@[i] == 0,
            decreases len - m,
        {
            espacio.push(0);
            m = m + 1;
        }
        Bus { espacio_direcc: espacio, espacio_rom: None }
    }

    /// How many bytes the address space holds (the top address plus one).
    pub fn mem_len(&self) -> (n: usize)
        ensures
            n == self@.mem.len(),
    {
        self.espacio_direcc.len()
    }

    /// Declares the read-only window `[start, end]`, both ends inclusive.
    /// Writes whose address falls inside it are dropped from then on.
    pub fn set_espacio_rom(&mut self, start: u16, end: u16)
        ensures
            final(self)@.mem == old(self)@.mem,
            final(self)@.rom == Some((start, end)),
    {
        self.espacio_rom = Some(ROMEspacio { inicio: start, fin: end });
    }

    /// Copies out the bytes at addresses `start..=end`. The range bounds
    /// are the caller's responsibility.
    pub fn read_mem_slice(&self, start: usize, end: usize) -> (datos: Vec<u8>)
        requires
            end < self@.mem.len(),
            start <= end + 1,
        ensures
            datos@ == self@.mem.subrange(start as int, end + 1),
    {
        let cap: usize = self.espacio_direcc.len();
        let mut datos: Vec<u8> = Vec::new();
        let mut m: usize = start;
        while m <= end
            invariant
                start <= m <= end + 1,
                end < cap,
                cap == self.espacio_direcc@.len(),
                datos@ == self.espacio_direcc@.subrange(start as int, m as int),
            decreases end + 1 - m,
        {
            datos.push(self.espacio_direcc[m]);
            proof {
                assert(datos@ =~= self.espacio_direcc@.subrange(start as int, m + 1));
            }
            m = m + 1;
        }
        datos
    }

    /// Zero-fills the bytes at addresses `start..=end`, the read-only
    /// window included: this is an administrative wipe, not a bus write.
    /// The range bounds are the caller's responsibility.
    pub fn clear_mem_slice(&mut self, start: usize, end: usize)
        requires
            end < old(self)@.mem.len(),
            start <= end + 1,
        ensures
            final(self)@.mem.len() == old(self)@.mem.len(),
            forall|i: int|
                0 <= i < final(self)@.mem.len() ==> final(self)@.mem[i] == (if start <= i <= end {
                    0u8
                } else {
                    old(self)@.mem[i]
                }),
            final(self)@.rom == old(self)@.rom,
    {
        let cap: usize = self.espacio_direcc.len();
        let mut m: usize = start;
        while m <= end
            invariant
                start <= m <= end + 1,
                end < cap,
                cap == self.espacio_direcc@.len(),
                self.espacio_direcc@.len() == old(self)@.mem.len(),
                forall|i: int|
                    0 <= i < self.espacio_direcc@.len() ==> self.espacio_direcc@[i] == (if start
                        <= i < m {
                        0u8
                    } else {
                        old(self)@.mem[i]
                    }),
                self.espacio_rom == old(self).espacio_rom,
            decreases end + 1 - m,
        {
            self.espacio_direcc.set(m, 0);
            m = m + 1;
        }
    }

    /// The byte at `direccion`; 0 when the address is beyond the top of
    /// the address space.
    pub fn leer_byte(&self, direccion: u16) -> (data: u8)
        ensures
            data == bus_byte(self@, direccion),
    {
        if direccion as usize >= self.espacio_direcc.len() {
            return 0;
        }
        self.espacio_direcc[direccion as usize]
    }

    /// Stores `data` at `direccion`. The write is dropped when the address
    /// is beyond the top of the address space or inside the read-only
    /// window; it never fails.
    pub fn escribir_byte(&mut self, direccion: u16, data: u8)
        ensures
            final(self)@ == bus_after_write(old(self)@, direccion, data),
            bus_byte(final(self)@, direccion) == (if direccion < old(self)@.mem.len() && !in_rom(
                old(self)@,
                direccion,
            ) {
                data
            } else {
                bus_byte(old(self)@, direccion)
            }),
    {
        if direccion as usize >= self.espacio_direcc.len() {
            return ;
        }
        if self.espacio_rom.is_some() {
            let dentro = match self.espacio_rom {
                Some(ref r) => direccion >= r.inicio && direccion <= r.fin,
                None => false,
            };
            if dentro {
                return ;
            }
        }
        self.espacio_direcc.set(direccion as usize, data);
        proof {
            assert(self@ =~= bus_after_write(old(self)@, direccion, data));
        }
    }

    /// The 16-bit word stored little-endian at `direccion`: the byte there
    /// is the low half, the byte at `direccion + 1` the high half. Yields 0
    /// when `direccion` is beyond the top of the address space; when it is
    /// in bounds the following address must be too.
    pub fn read_word(&self, direccion: u16) -> (v: u16)
        requires
            direccion < self@.mem.len() ==> direccion + 1 < self@.mem.len(),
        ensures
            v == (if direccion < self@.mem.len() {
                crate::registers::spec_pair(
                    self@.mem[direccion + 1],
                    self@.mem[direccion as int],
                )
            } else {
                0u16
            }),
    {
        if direccion as usize >= self.espacio_direcc.len() {
            return 0;
        }
        let lo = self.espacio_direcc[direccion as usize];
        let hi = self.espacio_direcc[direccion as usize + 1];
        proof {
            crate::registers::lemma_pair_split(0, hi, lo);
            assert((lo as u16) | ((hi as u16) << 8) == ((hi as u16) << 8) | (lo as u16))
                by (bit_vector);
        }
        (lo as u16) | ((hi as u16) << 8)
    }

    /// The same two bytes as `read_word`, composed the other way round:
    /// the byte at `direccion` becomes the high half. Used by the
    /// disassembler's address rendering, and kept separate from
    /// `read_word` so the two byte orders cannot be confused.
    pub fn read_le_word(&self, direccion: u16) -> (v: u16)
        requires
            direccion < self@.mem.len() ==> direccion + 1 < self@.mem.len(),
        ensures
            v == (if direccion < self@.mem.len() {
                crate::registers::spec_pair(
                    self@.mem[direccion as int],
                    self@.mem[direccion + 1],
                )
            } else {
                0u16
            }),
    {
        if direccion as usize >= self.espacio_direcc.len() {
            return 0;
        }
        let b0 = self.espacio_direcc[direccion as usize];
        let b1 = self.espacio_direcc[direccion as usize + 1];
        ((b0 as u16) << 8) | (b1 as u16)
    }

    /// The four bytes at `direccion..=direccion + 3` composed with the
    /// byte at `direccion` as the most significant. Yields 0 when
    /// `direccion` is beyond the top of the address space; when it is in
    /// bounds the three following addresses must be too.
    pub fn read_le_dword(&self, direccion: u16) -> (v: u32)
        requires
            direccion < self@.mem.len() ==> direccion + 3 < self@.mem.len(),
        ensures
            v == (if direccion < self@.mem.len() {
                spec_dword(
                    self@.mem[direccion as int],
                    self@.mem[direccion + 1],
                    self@.mem[direccion + 2],
                    self@.mem[direccion + 3],
                )
            } else {
                0u32
            }),
    {
        if direccion as usize >= self.espacio_direcc.len() {
            return 0;
        }
        let b0 = self.espacio_direcc[direccion as usize];
        let b1 = self.espacio_direcc[direccion as usize + 1];
        let b2 = self.espacio_direcc[direccion as usize + 2];
        let b3 = self.espacio_direcc[direccion as usize + 3];
        ((b0 as u32) << 24) | ((b1 as u32) << 16) | ((b2 as u32) << 8) | (b3 as u32)
    }

    /// Stores the 16-bit `data` little-endian: the low byte at
    /// `direccion`, the high byte at `direccion + 1`. The whole write is
    /// dropped when `direccion` is beyond the top of the address space or
    /// inside the read-only window; only `direccion` is tested against the
    /// window, so both bytes are stored when just `direccion + 1` falls in
    /// it. When `direccion` is in bounds the following address must be too.
    pub fn write_word(&mut self, direccion: u16, data: u16)
        requires
            direccion < old(self)@.mem.len() ==> direccion + 1 < old(self)@.mem.len(),
        ensures
            final(self)@.rom == old(self)@.rom,
            final(self)@.mem == (if direccion < old(self)@.mem.len() && !in_rom(
                old(self)@,
                direccion,
            ) {
                old(self)@.mem.update(direccion as int, crate::registers::spec_low(data)).update(
                    direccion + 1,
                    crate::registers::spec_high(data),
                )
            } else {
                old(self)@.mem
            }),
    {
        if direccion as usize >= self.espacio_direcc.len() {
            return ;
        }
        if self.espacio_rom.is_some() {
            let dentro = match self.espacio_rom {
                Some(ref r) => direccion >= r.inicio && direccion <= r.fin,
                None => false,
            };
            if dentro {
                return ;
            }
        }
        proof {
            assert((data & 0xFF) < 256 && (data >> 8) < 256 && ((data & 0xFF00) >> 8) == (data
                >> 8)) by (bit_vector);
        }
        self.espacio_direcc.set(direccion as usize, (data & 0xFF) as u8);
        self.espacio_direcc.set(direccion as usize + 1, (data >> 8) as u8);
    }

    /// Copies a binary image over the bytes starting at `org`, the
    /// read-only window included: loading an image is administrative, not
    /// a bus write. An image that would run past the top of the address
    /// space is rejected whole, and nothing is written. On success the
    /// image's size is handed back.
    pub fn load_bin(&mut self, data: &Vec<u8>, org: u16) -> (res: Result<usize, BusError>)
        requires
            org < old(self)@.mem.len(),
        ensures
            res is Ok <==> org + data@.len() <= old(self)@.mem.len(),
            res matches Ok(s) ==> s == data@.len(),
            res is Err ==> res == Result::<usize, BusError>::Err(BusError::CapacidadExcedida),
            final(self)@.rom == old(self)@.rom,
            final(self)@.mem.len() == old(self)@.mem.len(),
            forall|i: int|
                0 <= i < final(self)@.mem.len() ==> final(self)@.mem[i] == (if res is Ok && org
                    <= i < org + data@.len() {
                    data@[i - org]
                } else {
                    old(self)@.mem[i]
                }),
    {
        if data.len() > self.espacio_direcc.len() - org as usize {
            return Err(BusError::CapacidadExcedida);
        }
        let cap: usize = self.espacio_direcc.len();
        let mut m: usize = 0;
        while m < data.len()
            invariant
                m <= data@.len(),
                org + data@.len() <= cap,
                cap == self.espacio_direcc@.len(),
                self.espacio_direcc@.len() == old(self)@.mem.len(),
                self.espacio_rom == old(self).espacio_rom,
                forall|i: int|
                    0 <= i < self.espacio_direcc@.len() ==> self.espacio_direcc@[i] == (if org <= i
                        < org + m {
                        data@[i - org]
                    } else {
                        old(self)@.mem[i]
                    }),
            decreases data@.len() - m,
        {
            self.espacio_direcc.set(org as usize + m, data[m]);
            m = m + 1;
        }
        Ok(data.len())
    }
}

/// The composition `read_le_dword` yields: first byte most significant.
pub open spec fn spec_dword(b0: u8, b1: u8, b2: u8, b3: u8) -> u32 {
    ((b0 as u32) << 24 | (b1 as u32) << 16 | (b2 as u32) << 8 | (b3 as u32)) as u32
}

/// Why a bulk memory operation was refused.
#[derive(Clone, Copy, PartialEq, Eq, Structural, Debug)]
pub enum BusError {
    /// The data would run past the top of the address space.
    CapacidadExcedida,
}

/// A byte written within bounds and outside the read-only window is the
/// byte a read of the same address then yields; a write into the window
/// leaves the byte as it was.
pub proof fn lemma_write_then_read(bv: BusView, direccion: u16, data: u8)
    requires
        direccion < bv.mem.len(),
    ensures
        !in_rom(bv, direccion) ==> bus_byte(bus_after_write(bv, direccion, data), direccion)
            == data,
        in_rom(bv, direccion) ==> bus_byte(bus_after_write(bv, direccion, data), direccion)
            == bus_byte(bv, direccion),
{
}

/// A write never changes the byte at any other address.
pub proof fn lemma_write_frames_others(bv: BusView, direccion: u16, data: u8, otra: u16)
    requires
        otra != direccion,
    ensures
        bus_byte(bus_after_write(bv, direccion, data), otra) == bus_byte(bv, otra),
{
}

/// A read beyond the top of the address space yields 0, and a write there
/// changes nothing.
pub proof fn lemma_out_of_bounds_access(bv: BusView, direccion: u16, data: u8)
    requires
        direccion >= bv.mem.len(),
    ensures
        bus_byte(bv, direccion) == 0,
        bus_after_write(bv, direccion, data) == bv,
{
}

} // verus!
