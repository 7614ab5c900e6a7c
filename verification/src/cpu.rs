//! The instruction engine: fetch the opcode at the program counter,
//! dispatch, apply the register/memory/flag transformation, advance the
//! program counter by the instruction's encoded length, and report the
//! elapsed clock cycles.
//!
//! The whole step is the spec function [`step_spec`], and `execute`
//! promises to realise exactly that function; the disassembler's length
//! contract cites the same [`spec_instr_len`] table, so the two sides
//! cannot drift apart. The engine carries the unprefixed opcode space:
//! loads, 8- and 16-bit arithmetic, rotates, the decimal adjust,
//! exchanges, jumps, calls, returns, restarts and the stack operations.
//! The eight bytes outside the modelled register-and-memory semantics —
//! the CB/DD/ED/FD prefixes, the I/O port pair and the interrupt pair —
//! advance the program counter by their encoded length and change
//! nothing else, so those subsets can be slotted into the dispatch
//! without redesign.
//!
//! The processor is a two-state machine: `Running` executes one
//! instruction per step, and HALT (opcode 0x76) enters `Halted`, in which
//! every further step degenerates to a no-op until a reset.

use vstd::prelude::*;

use crate::bus::{bus_after_write, bus_byte, Bus, BusView};
use crate::flags::Flags;
use crate::registers::{spec_high, spec_low, spec_pair, Registros};

verus! {

/// A complete processor: the working register set, the shadow (alternate)
/// set swapped in by EX AF,AF', the memory bus, and the halted flag.
pub struct CPU {
    pub reg: Registros,
    pub alt: Registros,
    pub bus: Bus,
    pub halt: bool,
}

/// Mathematical state of a processor.
#[verifier::ext_equal]
pub struct CpuView {
    pub reg: Registros,
    pub alt: Registros,
    pub bus: BusView,
    pub halt: bool,
}

impl View for CPU {
    type V = CpuView;

    open spec fn view(&self) -> CpuView {
        CpuView { reg: self.reg, alt: self.alt, bus: self.bus@, halt: self.halt }
    }
}

/// 16-bit wraparound: the address space and the 16-bit registers are
/// circular, so arithmetic on them is taken modulo 2^16.
pub open spec fn wrap16(x: int) -> u16
    recommends
        x >= 0,
{
    (x % 0x10000) as u16
}

/// An 8-bit increment with wraparound.
pub open spec fn inc8(v: u8) -> u8 {
    if v == 0xFF {
        0
    } else {
        (v + 1) as u8
    }
}

/// An 8-bit decrement with wraparound.
pub open spec fn dec8(v: u8) -> u8 {
    if v == 0 {
        0xFF
    } else {
        (v - 1) as u8
    }
}

/// Whether `v` has an even number of set bits; the ALU's parity flag.
pub open spec fn even_parity(v: u8) -> bool {
    let p1 = v ^ (v >> 4);
    let p2 = p1 ^ (p1 >> 2);
    let p3 = p2 ^ (p2 >> 1);
    p3 & 1 == 0
}

/// The flags after INC of an 8-bit operand holding `v`: sign and zero
/// follow the result, half-carry is a carry out of the low nibble,
/// parity/overflow marks the 0x7F to 0x80 transition, subtract is
/// cleared, and carry is untouched.
pub open spec fn flags_inc8(f: Flags, v: u8) -> Flags {
    Flags {
        s: inc8(v) >= 0x80,
        z: inc8(v) == 0,
        h: v & 0x0F == 0x0F,
        p: v == 0x7F,
        n: false,
        ..f
    }
}

/// The flags after DEC of an 8-bit operand holding `v`: sign and zero
/// follow the result, half-carry is a borrow into the low nibble,
/// parity/overflow marks the 0x80 to 0x7F transition, subtract is set,
/// and carry is untouched.
pub open spec fn flags_dec8(f: Flags, v: u8) -> Flags {
    Flags {
        s: dec8(v) >= 0x80,
        z: dec8(v) == 0,
        h: v & 0x0F == 0x00,
        p: v == 0x80,
        n: true,
        ..f
    }
}

/// The relative-jump target: the displacement byte is a two's-complement
/// signed number applied to the address just past the two instruction
/// bytes, with 16-bit wraparound.
pub open spec fn spec_jr_target(address: u16, displacement: u8) -> u16 {
    wrap16(
        address + 2 + 0x10000 + displacement - (if displacement >= 0x80 {
            0x100int
        } else {
            0int
        }),
    )
}

/// The encoded length in bytes of the instruction that `opcode` opens:
/// the single source of truth shared by the execution engine and the
/// disassembler.
pub open spec fn spec_instr_len(opcode: u8) -> u8 {
    if opcode == 0xC3 || opcode == 0xDA || opcode == 0xD2 || opcode == 0xCA || opcode == 0xC2
        || opcode == 0xFA || opcode == 0xF2 || opcode == 0xEA || opcode == 0xE2 || opcode == 0xCD
        || opcode == 0xDC || opcode == 0xD4 || opcode == 0xCC || opcode == 0xC4 || opcode == 0xFC
        || opcode == 0xF4 || opcode == 0xEC || opcode == 0xE4 || opcode == 0x32 || opcode == 0x01
        || opcode == 0x11 || opcode == 0x21 || opcode == 0x31 || opcode == 0x2A || opcode == 0x22
        || opcode == 0x3A {
        3
    } else if opcode == 0x06 || opcode == 0x0E || opcode == 0x16 || opcode == 0x1E || opcode
        == 0x26 || opcode == 0x2E || opcode == 0x36 || opcode == 0x3E || opcode == 0xC6 || opcode
        == 0xCE || opcode == 0xD6 || opcode == 0xDE || opcode == 0xE6 || opcode == 0xF6 || opcode
        == 0xEE || opcode == 0xFE || opcode == 0xDB || opcode == 0xD3 || opcode == 0x10 || opcode
        == 0x18 || opcode == 0x38 || opcode == 0x30 || opcode == 0x28 || opcode == 0x20 || opcode
        == 0xCB {
        2
    } else {
        1
    }
}

/// The 8-bit register an opcode row names: 0 B, 1 C, 2 D, 3 E, 4 H, 5 L,
/// 7 A. Row 6 names memory at HL and is handled where it occurs.
pub open spec fn reg8_get(r: Registros, i: int) -> u8 {
    if i == 0 {
        r.b
    } else if i == 1 {
        r.c
    } else if i == 2 {
        r.d
    } else if i == 3 {
        r.e
    } else if i == 4 {
        r.h
    } else if i == 5 {
        r.l
    } else {
        r.a
    }
}

/// The register file with the 8-bit register of row `i` replaced; row 6
/// (memory at HL) leaves the registers untouched.
pub open spec fn reg8_set(r: Registros, i: int, v: u8) -> Registros {
    if i == 0 {
        Registros { b: v, ..r }
    } else if i == 1 {
        Registros { c: v, ..r }
    } else if i == 2 {
        Registros { d: v, ..r }
    } else if i == 3 {
        Registros { e: v, ..r }
    } else if i == 4 {
        Registros { h: v, ..r }
    } else if i == 5 {
        Registros { l: v, ..r }
    } else if i == 7 {
        Registros { a: v, ..r }
    } else {
        r
    }
}

/// The 16-bit register pair an opcode row names: 0 BC, 1 DE, 2 HL, 3 SP.
pub open spec fn dd_get(r: Registros, d: int) -> u16 {
    if d == 0 {
        spec_pair(r.b, r.c)
    } else if d == 1 {
        spec_pair(r.d, r.e)
    } else if d == 2 {
        spec_pair(r.h, r.l)
    } else {
        r.sp
    }
}

/// The register file with the 16-bit pair of row `d` replaced.
pub open spec fn dd_set(r: Registros, d: int, v: u16) -> Registros {
    if d == 0 {
        Registros { b: spec_high(v), c: spec_low(v), ..r }
    } else if d == 1 {
        Registros { d: spec_high(v), e: spec_low(v), ..r }
    } else if d == 2 {
        Registros { h: spec_high(v), l: spec_low(v), ..r }
    } else {
        Registros { sp: v, ..r }
    }
}

/// The decimal-adjust correction DAA adds to (after an addition) or
/// subtracts from (after a subtraction) the accumulator: 0x06 when the
/// low nibble overflowed a decimal digit, 0x60 when the whole byte
/// overflowed two of them.
pub open spec fn daa_correction(a: u8, f: Flags) -> u8 {
    ((if f.h || a & 0x0F > 0x09 {
        0x06u8
    } else {
        0x00u8
    }) | (if f.c || a > 0x99 {
        0x60u8
    } else {
        0x00u8
    }))
}

/// The accumulator after DAA.
pub open spec fn daa_result(a: u8, f: Flags) -> u8 {
    if f.n {
        ((a + 0x100 - daa_correction(a, f)) % 0x100) as u8
    } else {
        ((a + daa_correction(a, f)) % 0x100) as u8
    }
}

/// The register file after one 8-bit ALU operation on the accumulator
/// and `v`. The row `k` follows the opcode table: 0 ADD, 1 ADC, 2 SUB,
/// 3 SBC, 4 AND, 5 XOR, 6 OR, 7 CP. Additions and subtractions set
/// half-carry from the low nibbles and parity/overflow from the sign
/// bits; the logical rows clear the carry and compute true parity; CP
/// sets the flags of a subtraction but leaves the accumulator alone.
pub open spec fn alu_apply(r: Registros, k: int, v: u8) -> Registros {
    let a = r.a;
    let cin: int = if (k == 1 || k == 3) && r.flags.c {
        1
    } else {
        0
    };
    if k == 0 || k == 1 {
        let sum = a + v + cin;
        let res = (sum % 0x100) as u8;
        Registros {
            a: res,
            flags: Flags {
                s: res >= 0x80,
                z: res == 0,
                h: (a & 0x0F) + (v & 0x0F) + cin > 0x0F,
                p: ((a >= 0x80) == (v >= 0x80)) && ((res >= 0x80) != (a >= 0x80)),
                n: false,
                c: sum > 0xFF,
                ..r.flags
            },
            ..r
        }
    } else if k == 2 || k == 3 || k == 7 {
        let res = ((a + 0x100 - v - cin) % 0x100) as u8;
        let f = Flags {
            s: res >= 0x80,
            z: res == 0,
            h: (a & 0x0F) < (v & 0x0F) + cin,
            p: ((a >= 0x80) != (v >= 0x80)) && ((res >= 0x80) != (a >= 0x80)),
            n: true,
            c: a < v + cin,
            ..r.flags
        };
        if k == 7 {
            Registros { flags: f, ..r }
        } else {
            Registros { a: res, flags: f, ..r }
        }
    } else {
        let res = if k == 4 {
            a & v
        } else if k == 5 {
            a ^ v
        } else {
            a | v
        };
        Registros {
            a: res,
            flags: Flags {
                s: res >= 0x80,
                z: res == 0,
                h: k == 4,
                p: even_parity(res),
                n: false,
                c: false,
                ..r.flags
            },
            ..r
        }
    }
}

/// Whether the condition of row `cc` holds: 0 NZ, 1 Z, 2 NC, 3 C, 4 PO,
/// 5 PE, 6 P, 7 M.
pub open spec fn cond_holds(f: Flags, cc: int) -> bool {
    if cc == 0 {
        !f.z
    } else if cc == 1 {
        f.z
    } else if cc == 2 {
        !f.c
    } else if cc == 3 {
        f.c
    } else if cc == 4 {
        !f.p
    } else if cc == 5 {
        f.p
    } else if cc == 6 {
        !f.s
    } else {
        f.s
    }
}

/// The bus after a 16-bit value is pushed: the high byte lands one below
/// the stack pointer, the low byte one further down.
pub open spec fn push_spec(bus: BusView, sp: u16, v: u16) -> BusView {
    bus_after_write(
        bus_after_write(bus, wrap16(sp + 0xFFFF), spec_high(v)),
        wrap16(sp + 0xFFFE),
        spec_low(v),
    )
}

/// The 16-bit value at the top of the stack: the low byte at the stack
/// pointer, the high byte above it.
pub open spec fn stack_top(bus: BusView, sp: u16) -> u16 {
    spec_pair(bus_byte(bus, wrap16(sp + 1)), bus_byte(bus, sp))
}

/// The state one instruction step leaves behind. A halted processor does
/// not move; otherwise the opcode at the program counter picks the
/// transformation, and an opcode the engine does not carry advances the
/// program counter by its encoded length and changes nothing else.
pub open spec fn step_spec(pre: CpuView) -> CpuView {
    if pre.halt {
        pre
    } else {
        let pc = pre.reg.pc;
        let op = bus_byte(pre.bus, pc);
        let n1 = bus_byte(pre.bus, wrap16(pc + 1));
        let n2 = bus_byte(pre.bus, wrap16(pc + 2));
        let w = spec_pair(n2, n1);
        let hl = spec_pair(pre.reg.h, pre.reg.l);
        if op == 0x00 {
            // NOP
            CpuView { reg: Registros { pc: wrap16(pc + 1), ..pre.reg }, ..pre }
        } else if op == 0x01 || op == 0x11 || op == 0x21 || op == 0x31 {
            // LD dd,nn
            CpuView {
                reg: Registros { pc: wrap16(pc + 3), ..dd_set(pre.reg, (op >> 4) as int, w) },
                ..pre
            }
        } else if op == 0x02 || op == 0x12 {
            // LD (BC),A / LD (DE),A
            let addr = if op == 0x02 {
                spec_pair(pre.reg.b, pre.reg.c)
            } else {
                spec_pair(pre.reg.d, pre.reg.e)
            };
            CpuView {
                reg: Registros { pc: wrap16(pc + 1), ..pre.reg },
                bus: bus_after_write(pre.bus, addr, pre.reg.a),
                ..pre
            }
        } else if op == 0x03 || op == 0x13 || op == 0x23 || op == 0x33 {
            // INC dd
            let d = (op >> 4) as int;
            CpuView {
                reg: Registros {
                    pc: wrap16(pc + 1),
                    ..dd_set(pre.reg, d, wrap16(dd_get(pre.reg, d) + 1))
                },
                ..pre
            }
        } else if op == 0x0B || op == 0x1B || op == 0x2B || op == 0x3B {
            // DEC dd
            let d = (op >> 4) as int;
            CpuView {
                reg: Registros {
                    pc: wrap16(pc + 1),
                    ..dd_set(pre.reg, d, wrap16(dd_get(pre.reg, d) + 0xFFFF))
                },
                ..pre
            }
        } else if op == 0x04 || op == 0x0C || op == 0x14 || op == 0x1C || op == 0x24 || op == 0x2C
            || op == 0x3C {
            // INC r
            let i = ((op >> 3) & 0x07) as int;
            let v = reg8_get(pre.reg, i);
            CpuView {
                reg: Registros {
                    flags: flags_inc8(pre.reg.flags, v),
                    pc: wrap16(pc + 1),
                    ..reg8_set(pre.reg, i, inc8(v))
                },
                ..pre
            }
        } else if op == 0x05 || op == 0x0D || op == 0x15 || op == 0x1D || op == 0x25 || op == 0x2D
            || op == 0x3D {
            // DEC r
            let i = ((op >> 3) & 0x07) as int;
            let v = reg8_get(pre.reg, i);
            CpuView {
                reg: Registros {
                    flags: flags_dec8(pre.reg.flags, v),
                    pc: wrap16(pc + 1),
                    ..reg8_set(pre.reg, i, dec8(v))
                },
                ..pre
            }
        } else if op == 0x34 {
            // INC (HL)
            let v = bus_byte(pre.bus, hl);
            CpuView {
                reg: Registros {
                    flags: flags_inc8(pre.reg.flags, v),
                    pc: wrap16(pc + 1),
                    ..pre.reg
                },
                bus: bus_after_write(pre.bus, hl, inc8(v)),
                ..pre
            }
        } else if op == 0x35 {
            // DEC (HL)
            let v = bus_byte(pre.bus, hl);
            CpuView {
                reg: Registros {
                    flags: flags_dec8(pre.reg.flags, v),
                    pc: wrap16(pc + 1),
                    ..pre.reg
                },
                bus: bus_after_write(pre.bus, hl, dec8(v)),
                ..pre
            }
        } else if op == 0x06 || op == 0x0E || op == 0x16 || op == 0x1E || op == 0x26 || op == 0x2E
            || op == 0x3E {
            // LD r,n
            let i = ((op >> 3) & 0x07) as int;
            CpuView {
                reg: Registros { pc: wrap16(pc + 2), ..reg8_set(pre.reg, i, n1) },
                ..pre
            }
        } else if op == 0x36 {
            // LD (HL),n
            CpuView {
                reg: Registros { pc: wrap16(pc + 2), ..pre.reg },
                bus: bus_after_write(pre.bus, hl, n1),
                ..pre
            }
        } else if op == 0x07 {
            // RLCA
            let a = pre.reg.a;
            CpuView {
                reg: Registros {
                    a: (a << 1) | (a >> 7),
                    flags: Flags { h: false, n: false, c: a & 0x80 != 0, ..pre.reg.flags },
                    pc: wrap16(pc + 1),
                    ..pre.reg
                },
                ..pre
            }
        } else if op == 0x17 {
            // RLA: the old carry enters bit 0
            let a = pre.reg.a;
            CpuView {
                reg: Registros {
                    a: (a << 1) | (if pre.reg.flags.c {
                        1u8
                    } else {
                        0u8
                    }),
                    flags: Flags { h: false, n: false, c: a & 0x80 != 0, ..pre.reg.flags },
                    pc: wrap16(pc + 1),
                    ..pre.reg
                },
                ..pre
            }
        } else if op == 0x0F {
            // RRCA
            let a = pre.reg.a;
            CpuView {
                reg: Registros {
                    a: (a >> 1) | (a << 7),
                    flags: Flags { h: false, n: false, c: a & 0x01 != 0, ..pre.reg.flags },
                    pc: wrap16(pc + 1),
                    ..pre.reg
                },
                ..pre
            }
        } else if op == 0x1F {
            // RRA: the old carry enters bit 7
            let a = pre.reg.a;
            CpuView {
                reg: Registros {
                    a: (a >> 1) | (if pre.reg.flags.c {
                        0x80u8
                    } else {
                        0u8
                    }),
                    flags: Flags { h: false, n: false, c: a & 0x01 != 0, ..pre.reg.flags },
                    pc: wrap16(pc + 1),
                    ..pre.reg
                },
                ..pre
            }
        } else if op == 0x08 {
            // EX AF,AF'
            CpuView {
                reg: Registros {
                    a: pre.alt.a,
                    flags: pre.alt.flags,
                    pc: wrap16(pc + 1),
                    ..pre.reg
                },
                alt: Registros { a: pre.reg.a, flags: pre.reg.flags, ..pre.alt },
                ..pre
            }
        } else if op == 0x09 || op == 0x19 || op == 0x29 || op == 0x39 {
            // ADD HL,ss
            let ss = dd_get(pre.reg, (op >> 4) as int);
            let v = wrap16(hl + ss);
            CpuView {
                reg: Registros {
                    h: spec_high(v),
                    l: spec_low(v),
                    flags: Flags {
                        h: (hl & 0x0FFF) + (ss & 0x0FFF) > 0x0FFF,
                        n: false,
                        c: hl + ss > 0xFFFF,
                        ..pre.reg.flags
                    },
                    pc: wrap16(pc + 1),
                    ..pre.reg
                },
                ..pre
            }
        } else if op == 0x0A || op == 0x1A {
            // LD A,(BC) / LD A,(DE)
            let addr = if op == 0x0A {
                spec_pair(pre.reg.b, pre.reg.c)
            } else {
                spec_pair(pre.reg.d, pre.reg.e)
            };
            CpuView {
                reg: Registros { a: bus_byte(pre.bus, addr), pc: wrap16(pc + 1), ..pre.reg },
                ..pre
            }
        } else if op == 0x10 {
            // DJNZ d: decrement B and jump while it is not zero
            let b2 = dec8(pre.reg.b);
            CpuView {
                reg: Registros {
                    b: b2,
                    pc: if b2 != 0 {
                        spec_jr_target(pc, n1)
                    } else {
                        wrap16(pc + 2)
                    },
                    ..pre.reg
                },
                ..pre
            }
        } else if op == 0x18 {
            // JR d
            CpuView { reg: Registros { pc: spec_jr_target(pc, n1), ..pre.reg }, ..pre }
        } else if op == 0x20 || op == 0x28 || op == 0x30 || op == 0x38 {
            // JR NZ,d / JR Z,d / JR NC,d / JR C,d
            let taken = if op == 0x20 {
                !pre.reg.flags.z
            } else if op == 0x28 {
                pre.reg.flags.z
            } else if op == 0x30 {
                !pre.reg.flags.c
            } else {
                pre.reg.flags.c
            };
            CpuView {
                reg: Registros {
                    pc: if taken {
                        spec_jr_target(pc, n1)
                    } else {
                        wrap16(pc + 2)
                    },
                    ..pre.reg
                },
                ..pre
            }
        } else if op == 0x22 {
            // LD (nn),HL: L first, H at the following address
            CpuView {
                reg: Registros { pc: wrap16(pc + 3), ..pre.reg },
                bus: bus_after_write(
                    bus_after_write(pre.bus, w, pre.reg.l),
                    wrap16(w + 1),
                    pre.reg.h,
                ),
                ..pre
            }
        } else if op == 0x2A {
            // LD HL,(nn): L from nn, H from the following address
            CpuView {
                reg: Registros {
                    h: bus_byte(pre.bus, wrap16(w + 1)),
                    l: bus_byte(pre.bus, w),
                    pc: wrap16(pc + 3),
                    ..pre.reg
                },
                ..pre
            }
        } else if op == 0x32 {
            // LD (nn),A
            CpuView {
                reg: Registros { pc: wrap16(pc + 3), ..pre.reg },
                bus: bus_after_write(pre.bus, w, pre.reg.a),
                ..pre
            }
        } else if op == 0x3A {
            // LD A,(nn)
            CpuView {
                reg: Registros { a: bus_byte(pre.bus, w), pc: wrap16(pc + 3), ..pre.reg },
                ..pre
            }
        } else if op == 0x27 {
            // DAA: decimal-adjust the accumulator after BCD arithmetic
            let a = pre.reg.a;
            let f = pre.reg.flags;
            let r = daa_result(a, f);
            CpuView {
                reg: Registros {
                    a: r,
                    flags: Flags {
                        s: r >= 0x80,
                        z: r == 0,
                        h: (a ^ r) & 0x10 != 0,
                        p: even_parity(r),
                        c: f.c || a > 0x99,
                        ..f
                    },
                    pc: wrap16(pc + 1),
                    ..pre.reg
                },
                ..pre
            }
        } else if op == 0x2F {
            // CPL: complement the accumulator
            CpuView {
                reg: Registros {
                    a: !pre.reg.a,
                    flags: Flags { h: true, n: true, ..pre.reg.flags },
                    pc: wrap16(pc + 1),
                    ..pre.reg
                },
                ..pre
            }
        } else if op == 0x37 {
            // SCF
            CpuView {
                reg: Registros {
                    flags: Flags { h: false, n: false, c: true, ..pre.reg.flags },
                    pc: wrap16(pc + 1),
                    ..pre.reg
                },
                ..pre
            }
        } else if op == 0x3F {
            // CCF: invert the carry, the old carry lands in half-carry
            CpuView {
                reg: Registros {
                    flags: Flags {
                        h: pre.reg.flags.c,
                        n: false,
                        c: !pre.reg.flags.c,
                        ..pre.reg.flags
                    },
                    pc: wrap16(pc + 1),
                    ..pre.reg
                },
                ..pre
            }
        } else if op == 0x76 {
            // HALT
            CpuView { reg: Registros { pc: wrap16(pc + 1), ..pre.reg }, halt: true, ..pre }
        } else if 0x40 <= op && op <= 0x7F {
            // LD r,r' with rows through memory at HL
            let d = ((op >> 3) & 0x07) as int;
            let s = (op & 0x07) as int;
            let v = if s == 6 {
                bus_byte(pre.bus, hl)
            } else {
                reg8_get(pre.reg, s)
            };
            if d == 6 {
                CpuView {
                    reg: Registros { pc: wrap16(pc + 1), ..pre.reg },
                    bus: bus_after_write(pre.bus, hl, v),
                    ..pre
                }
            } else {
                CpuView {
                    reg: Registros { pc: wrap16(pc + 1), ..reg8_set(pre.reg, d, v) },
                    ..pre
                }
            }
        } else if 0x80 <= op && op <= 0xBF {
            // the 8-bit ALU block on a register row or memory at HL
            let k = ((op >> 3) & 0x07) as int;
            let s = (op & 0x07) as int;
            let v = if s == 6 {
                bus_byte(pre.bus, hl)
            } else {
                reg8_get(pre.reg, s)
            };
            CpuView { reg: Registros { pc: wrap16(pc + 1), ..alu_apply(pre.reg, k, v) }, ..pre }
        } else if op == 0xC6 || op == 0xCE || op == 0xD6 || op == 0xDE || op == 0xE6 || op == 0xEE
            || op == 0xF6 || op == 0xFE {
            // the same ALU rows with an immediate operand
            let k = ((op >> 3) & 0x07) as int;
            CpuView { reg: Registros { pc: wrap16(pc + 2), ..alu_apply(pre.reg, k, n1) }, ..pre }
        } else if op == 0xC3 {
            // JP nn
            CpuView { reg: Registros { pc: w, ..pre.reg }, ..pre }
        } else if op == 0xC2 || op == 0xCA || op == 0xD2 || op == 0xDA || op == 0xE2 || op == 0xEA
            || op == 0xF2 || op == 0xFA {
            // JP cc,nn
            let taken = cond_holds(pre.reg.flags, ((op >> 3) & 0x07) as int);
            CpuView {
                reg: Registros {
                    pc: if taken {
                        w
                    } else {
                        wrap16(pc + 3)
                    },
                    ..pre.reg
                },
                ..pre
            }
        } else if op == 0xE9 {
            // JP (HL)
            CpuView { reg: Registros { pc: hl, ..pre.reg }, ..pre }
        } else if op == 0xCD || op == 0xC4 || op == 0xCC || op == 0xD4 || op == 0xDC || op == 0xE4
            || op == 0xEC || op == 0xF4 || op == 0xFC {
            // CALL nn and CALL cc,nn: push the return address, jump to nn
            let taken = op == 0xCD || cond_holds(pre.reg.flags, ((op >> 3) & 0x07) as int);
            if taken {
                CpuView {
                    reg: Registros { pc: w, sp: wrap16(pre.reg.sp + 0xFFFE), ..pre.reg },
                    bus: push_spec(pre.bus, pre.reg.sp, wrap16(pc + 3)),
                    ..pre
                }
            } else {
                CpuView { reg: Registros { pc: wrap16(pc + 3), ..pre.reg }, ..pre }
            }
        } else if op == 0xC9 {
            // RET: pop the return address
            CpuView {
                reg: Registros {
                    pc: stack_top(pre.bus, pre.reg.sp),
                    sp: wrap16(pre.reg.sp + 2),
                    ..pre.reg
                },
                ..pre
            }
        } else if op == 0xC0 || op == 0xC8 || op == 0xD0 || op == 0xD8 || op == 0xE0 || op == 0xE8
            || op == 0xF0 || op == 0xF8 {
            // RET cc
            let taken = cond_holds(pre.reg.flags, ((op >> 3) & 0x07) as int);
            if taken {
                CpuView {
                    reg: Registros {
                        pc: stack_top(pre.bus, pre.reg.sp),
                        sp: wrap16(pre.reg.sp + 2),
                        ..pre.reg
                    },
                    ..pre
                }
            } else {
                CpuView { reg: Registros { pc: wrap16(pc + 1), ..pre.reg }, ..pre }
            }
        } else if op == 0xC7 || op == 0xCF || op == 0xD7 || op == 0xDF || op == 0xE7 || op == 0xEF
            || op == 0xF7 || op == 0xFF {
            // RST t: push the return address, jump to the fixed vector
            CpuView {
                reg: Registros {
                    pc: (op & 0x38) as u16,
                    sp: wrap16(pre.reg.sp + 0xFFFE),
                    ..pre.reg
                },
                bus: push_spec(pre.bus, pre.reg.sp, wrap16(pc + 1)),
                ..pre
            }
        } else if op == 0xC5 || op == 0xD5 || op == 0xE5 || op == 0xF5 {
            // PUSH qq: BC, DE, HL or AF
            let q = ((op >> 4) & 0x03) as int;
            let v = if q == 3 {
                spec_pair(pre.reg.a, crate::flags::spec_to_byte(pre.reg.flags))
            } else {
                dd_get(pre.reg, q)
            };
            CpuView {
                reg: Registros {
                    pc: wrap16(pc + 1),
                    sp: wrap16(pre.reg.sp + 0xFFFE),
                    ..pre.reg
                },
                bus: push_spec(pre.bus, pre.reg.sp, v),
                ..pre
            }
        } else if op == 0xC1 || op == 0xD1 || op == 0xE1 || op == 0xF1 {
            // POP qq: BC, DE, HL or AF
            let q = ((op >> 4) & 0x03) as int;
            let v = stack_top(pre.bus, pre.reg.sp);
            if q == 3 {
                CpuView {
                    reg: Registros {
                        a: spec_high(v),
                        flags: crate::flags::spec_from_byte(spec_low(v)),
                        sp: wrap16(pre.reg.sp + 2),
                        pc: wrap16(pc + 1),
                        ..pre.reg
                    },
                    ..pre
                }
            } else {
                CpuView {
                    reg: Registros {
                        sp: wrap16(pre.reg.sp + 2),
                        pc: wrap16(pc + 1),
                        ..dd_set(pre.reg, q, v)
                    },
                    ..pre
                }
            }
        } else if op == 0xEB {
            // EX DE,HL
            CpuView {
                reg: Registros {
                    d: pre.reg.h,
                    e: pre.reg.l,
                    h: pre.reg.d,
                    l: pre.reg.e,
                    pc: wrap16(pc + 1),
                    ..pre.reg
                },
                ..pre
            }
        } else if op == 0xD9 {
            // EXX: swap BC, DE and HL with the shadow set
            CpuView {
                reg: Registros {
                    b: pre.alt.b,
                    c: pre.alt.c,
                    d: pre.alt.d,
                    e: pre.alt.e,
                    h: pre.alt.h,
                    l: pre.alt.l,
                    pc: wrap16(pc + 1),
                    ..pre.reg
                },
                alt: Registros {
                    b: pre.reg.b,
                    c: pre.reg.c,
                    d: pre.reg.d,
                    e: pre.reg.e,
                    h: pre.reg.h,
                    l: pre.reg.l,
                    ..pre.alt
                },
                ..pre
            }
        } else if op == 0xE3 {
            // EX (SP),HL: swap HL with the word at the top of the stack
            let v = stack_top(pre.bus, pre.reg.sp);
            CpuView {
                reg: Registros {
                    h: spec_high(v),
                    l: spec_low(v),
                    pc: wrap16(pc + 1),
                    ..pre.reg
                },
                bus: bus_after_write(
                    bus_after_write(pre.bus, pre.reg.sp, pre.reg.l),
                    wrap16(pre.reg.sp + 1),
                    pre.reg.h,
                ),
                ..pre
            }
        } else if op == 0xF9 {
            // LD SP,HL
            CpuView { reg: Registros { sp: hl, pc: wrap16(pc + 1), ..pre.reg }, ..pre }
        } else {
            // not carried by the engine: advance by the encoded length
            CpuView {
                reg: Registros { pc: wrap16(pc + spec_instr_len(op)), ..pre.reg },
                ..pre
            }
        }
    }
}

/// The clock cycles one step consumes, per the hardware's cycle table; a
/// conditional jump pays more when taken, and an opcode the engine does
/// not carry reports 0.
pub open spec fn step_cycles(pre: CpuView) -> u8 {
    if pre.halt {
        4
    } else {
        let pc = pre.reg.pc;
        let op = bus_byte(pre.bus, pc);
        if op == 0x01 || op == 0x11 || op == 0x21 || op == 0x31 {
            10
        } else if op == 0x02 || op == 0x12 || op == 0x0A || op == 0x1A {
            7
        } else if op == 0x03 || op == 0x13 || op == 0x23 || op == 0x33 || op == 0x0B || op == 0x1B
            || op == 0x2B || op == 0x3B {
            6
        } else if op == 0x34 || op == 0x35 {
            11
        } else if op == 0x06 || op == 0x0E || op == 0x16 || op == 0x1E || op == 0x26 || op == 0x2E
            || op == 0x3E {
            7
        } else if op == 0x36 {
            10
        } else if op == 0x09 || op == 0x19 || op == 0x29 || op == 0x39 {
            11
        } else if op == 0x10 {
            if dec8(pre.reg.b) != 0 {
                13
            } else {
                8
            }
        } else if op == 0x18 {
            12
        } else if op == 0x20 || op == 0x28 || op == 0x30 || op == 0x38 {
            let taken = if op == 0x20 {
                !pre.reg.flags.z
            } else if op == 0x28 {
                pre.reg.flags.z
            } else if op == 0x30 {
                !pre.reg.flags.c
            } else {
                pre.reg.flags.c
            };
            if taken {
                12
            } else {
                7
            }
        } else if op == 0x22 || op == 0x2A {
            16
        } else if op == 0x32 || op == 0x3A {
            13
        } else if op <= 0x3F || op == 0x76 {
            4
        } else if op <= 0x7F {
            if op & 0x07 == 6 || (op >> 3) & 0x07 == 6 {
                7
            } else {
                4
            }
        } else if op <= 0xBF {
            if op & 0x07 == 6 {
                7
            } else {
                4
            }
        } else if op == 0xC6 || op == 0xCE || op == 0xD6 || op == 0xDE || op == 0xE6 || op == 0xEE
            || op == 0xF6 || op == 0xFE {
            7
        } else if op == 0xC3 || op == 0xC2 || op == 0xCA || op == 0xD2 || op == 0xDA || op == 0xE2
            || op == 0xEA || op == 0xF2 || op == 0xFA {
            10
        } else if op == 0xE9 {
            4
        } else if op == 0xCD {
            17
        } else if op == 0xC4 || op == 0xCC || op == 0xD4 || op == 0xDC || op == 0xE4 || op == 0xEC
            || op == 0xF4 || op == 0xFC {
            if cond_holds(pre.reg.flags, ((op >> 3) & 0x07) as int) {
                17
            } else {
                10
            }
        } else if op == 0xC9 {
            10
        } else if op == 0xC0 || op == 0xC8 || op == 0xD0 || op == 0xD8 || op == 0xE0 || op == 0xE8
            || op == 0xF0 || op == 0xF8 {
            if cond_holds(pre.reg.flags, ((op >> 3) & 0x07) as int) {
                11
            } else {
                5
            }
        } else if op == 0xC7 || op == 0xCF || op == 0xD7 || op == 0xDF || op == 0xE7 || op == 0xEF
            || op == 0xF7 || op == 0xFF {
            11
        } else if op == 0xC5 || op == 0xD5 || op == 0xE5 || op == 0xF5 {
            11
        } else if op == 0xC1 || op == 0xD1 || op == 0xE1 || op == 0xF1 {
            10
        } else if op == 0xEB || op == 0xD9 {
            4
        } else if op == 0xE3 {
            19
        } else if op == 0xF9 {
            6
        } else {
            0
        }
    }
}

/// 16-bit addition with wraparound.
pub fn wadd16(v: u16, k: u16) -> (r: u16)
    ensures
        r == wrap16(v + k),
{
    (((v as u32) + (k as u32)) % 0x10000) as u16
}

/// The target of a relative jump: `displacement` is two's-complement
/// signed and is applied to `address + 2`, the program counter having
/// already passed the opcode and the displacement byte; the result wraps
/// around the 16-bit address space. Shared by every relative
/// control-transfer instruction so the decode cannot drift between them.
pub fn jump_target(address: u16, displacement: u8) -> (target: u16)
    ensures
        target == spec_jr_target(address, displacement),
{
    let resta: u32 = if displacement >= 0x80 {
        0x100
    } else {
        0
    };
    (((address as u32) + 2 + 0x10000 + (displacement as u32) - resta) % 0x10000) as u16
}

impl CPU {
    /// A processor over a fresh zero-filled bus whose top address is
    /// `size`, with both register sets cleared and the machine running.
    pub fn new(size: u16) -> (cpu: CPU)
        ensures
            cpu@.bus.mem.len() == size as int + 1,
            forall|i: int| 0 <= i < cpu@.bus.mem.len() ==> cpu@.bus.mem[i] == 0,
            cpu@.bus.rom is None,
            cpu.reg == Registros::new_spec(),
            cpu.alt == Registros::new_spec(),
            !cpu.halt,
    {
        CPU { reg: Registros::new(), alt: Registros::new(), bus: Bus::new(size), halt: false }
    }

    /// Executes one instruction step and reports its clock cycles: the
    /// machine moves to exactly the state `step_spec` assigns.
    pub fn execute(&mut self) -> (cycles: u8)
        ensures
            final(self)@ == step_spec(old(self)@),
            cycles == step_cycles(old(self)@),
    {
        if self.halt {
            return 4;
        }
        let op = self.bus.leer_byte(self.reg.pc);
        match op {
            0x00 => self.op_nop(),
            0x01 | 0x11 | 0x21 | 0x31 => self.op_ld_dd_nn(op),
            0x02 | 0x12 => self.op_ld_mem_a(op),
            0x03 | 0x13 | 0x23 | 0x33 => self.op_inc_dd(op),
            0x0B | 0x1B | 0x2B | 0x3B => self.op_dec_dd(op),
            0x04 | 0x0C | 0x14 | 0x1C | 0x24 | 0x2C | 0x3C => self.op_inc_r(op),
            0x05 | 0x0D | 0x15 | 0x1D | 0x25 | 0x2D | 0x3D => self.op_dec_r(op),
            0x34 => self.op_inc_phl(),
            0x35 => self.op_dec_phl(),
            0x06 | 0x0E | 0x16 | 0x1E | 0x26 | 0x2E | 0x3E => self.op_ld_r_n(op),
            0x36 => self.op_ld_phl_n(),
            0x07 => self.op_rlca(),
            0x17 => self.op_rla(),
            0x0F => self.op_rrca(),
            0x1F => self.op_rra(),
            0x08 => self.op_ex_af_afp(),
            0x09 | 0x19 | 0x29 | 0x39 => self.op_add_hl_dd(op),
            0x0A | 0x1A => self.op_ld_a_mem(op),
            0x10 => self.op_djnz(),
            0x18 | 0x20 | 0x28 | 0x30 | 0x38 => self.op_jr(op),
            0x22 => self.op_ld_pnn_hl(),
            0x2A => self.op_ld_hl_pnn(),
            0x32 => self.op_ld_pnn_a(),
            0x3A => self.op_ld_a_pnn(),
            0x27 => self.op_daa(),
            0x2F => self.op_cpl(),
            0x37 => self.op_scf(),
            0x3F => self.op_ccf(),
            0x76 => self.op_halt(),
            0x40..=0x7F => self.op_ld_rr(op),
            0x80..=0xBF => self.op_alu_r(op),
            0xC6 | 0xCE | 0xD6 | 0xDE | 0xE6 | 0xEE | 0xF6 | 0xFE => self.op_alu_n(op),
            0xC3 => self.op_jp_nn(),
            0xC2 | 0xCA | 0xD2 | 0xDA | 0xE2 | 0xEA | 0xF2 | 0xFA => self.op_jp_cc(op),
            0xE9 => self.op_jp_hl(),
            0xCD | 0xC4 | 0xCC | 0xD4 | 0xDC | 0xE4 | 0xEC | 0xF4 | 0xFC => self.op_call(op),
            0xC9 => self.op_ret(),
            0xC0 | 0xC8 | 0xD0 | 0xD8 | 0xE0 | 0xE8 | 0xF0 | 0xF8 => self.op_ret_cc(op),
            0xC7 | 0xCF | 0xD7 | 0xDF | 0xE7 | 0xEF | 0xF7 | 0xFF => self.op_rst(op),
            0xC5 | 0xD5 | 0xE5 | 0xF5 => self.op_push(op),
            0xC1 | 0xD1 | 0xE1 | 0xF1 => self.op_pop(op),
            0xEB => self.op_ex_de_hl(),
            0xD9 => self.op_exx(),
            0xE3 => self.op_ex_psp_hl(),
            0xF9 => self.op_ld_sp_hl(),
            _ => self.op_sin_semantica(op),
        }
    }

    /// The 8-bit register of opcode row `i` (7 names A; 6, memory at HL,
    /// is resolved by the caller).
    fn get_r8(&self, i: u8) -> (v: u8)
        ensures
            v == reg8_get(self.reg, i as int),
    {
        match i {
            0 => self.reg.b,
            1 => self.reg.c,
            2 => self.reg.d,
            3 => self.reg.e,
            4 => self.reg.h,
            5 => self.reg.l,
            _ => self.reg.a,
        }
    }

    /// Writes the 8-bit register of opcode row `i`; row 6 writes nothing.
    fn set_r8(&mut self, i: u8, v: u8)
        ensures
            final(self).reg == reg8_set(old(self).reg, i as int, v),
            final(self).alt == old(self).alt,
            final(self).bus@ == old(self).bus@,
            final(self).halt == old(self).halt,
    {
        match i {
            0 => self.reg.b = v,
            1 => self.reg.c = v,
            2 => self.reg.d = v,
            3 => self.reg.e = v,
            4 => self.reg.h = v,
            5 => self.reg.l = v,
            7 => self.reg.a = v,
            _ => (),
        }
    }

    /// The 16-bit pair of opcode row `d`.
    fn get_dd(&self, d: u8) -> (v: u16)
        ensures
            v == dd_get(self.reg, d as int),
    {
        match d {
            0 => self.reg.get_bc(),
            1 => self.reg.get_de(),
            2 => self.reg.get_hl(),
            _ => self.reg.sp,
        }
    }

    /// Writes the 16-bit pair of opcode row `d`.
    fn set_dd(&mut self, d: u8, v: u16)
        ensures
            final(self).reg == dd_set(old(self).reg, d as int, v),
            final(self).alt == old(self).alt,
            final(self).bus@ == old(self).bus@,
            final(self).halt == old(self).halt,
    {
        match d {
            0 => self.reg.set_bc(v),
            1 => self.reg.set_de(v),
            2 => self.reg.set_hl(v),
            _ => self.reg.sp = v,
        }
    }

    /// The 16-bit operand following the opcode, read little-endian.
    fn operand_word(&self) -> (w: u16)
        ensures
            w == spec_pair(
                bus_byte(self@.bus, wrap16(self.reg.pc + 2)),
                bus_byte(self@.bus, wrap16(self.reg.pc + 1)),
            ),
    {
        let n1 = self.bus.leer_byte(wadd16(self.reg.pc, 1));
        let n2 = self.bus.leer_byte(wadd16(self.reg.pc, 2));
        (n2 as u16) << 8 | n1 as u16
    }

    /// NOP.
    fn op_nop(&mut self) -> (cycles: u8)
        requires
            !old(self).halt,
            bus_byte(old(self)@.bus, old(self).reg.pc) == 0x00,
        ensures
            final(self)@ == step_spec(old(self)@),
            cycles == step_cycles(old(self)@),
    {
        self.reg.pc = wadd16(self.reg.pc, 1);
        proof {
            assert(self@ =~= step_spec(old(self)@));
        }
        4
    }

    /// LD dd,nn: the low byte follows the opcode, the high byte comes
    /// last.
    fn op_ld_dd_nn(&mut self, op: u8) -> (cycles: u8)
        requires
            !old(self).halt,
            op == bus_byte(old(self)@.bus, old(self).reg.pc),
            op == 0x01 || op == 0x11 || op == 0x21 || op == 0x31,
        ensures
            final(self)@ == step_spec(old(self)@),
            cycles == step_cycles(old(self)@),
    {
        let pc = self.reg.pc;
        let w = self.operand_word();
        self.set_dd(op >> 4, w);
        self.reg.pc = wadd16(pc, 3);
        proof {
            assert(self@ =~= step_spec(old(self)@));
        }
        10
    }

    /// LD (BC),A / LD (DE),A.
    fn op_ld_mem_a(&mut self, op: u8) -> (cycles: u8)
        requires
            !old(self).halt,
            op == bus_byte(old(self)@.bus, old(self).reg.pc),
            op == 0x02 || op == 0x12,
        ensures
            final(self)@ == step_spec(old(self)@),
            cycles == step_cycles(old(self)@),
    {
        let addr = if op == 0x02 {
            self.reg.get_bc()
        } else {
            self.reg.get_de()
        };
        self.bus.escribir_byte(addr, self.reg.a);
        self.reg.pc = wadd16(self.reg.pc, 1);
        proof {
            assert(self@ =~= step_spec(old(self)@));
        }
        7
    }

    /// LD A,(BC) / LD A,(DE).
    fn op_ld_a_mem(&mut self, op: u8) -> (cycles: u8)
        requires
            !old(self).halt,
            op == bus_byte(old(self)@.bus, old(self).reg.pc),
            op == 0x0A || op == 0x1A,
        ensures
            final(self)@ == step_spec(old(self)@),
            cycles == step_cycles(old(self)@),
    {
        let addr = if op == 0x0A {
            self.reg.get_bc()
        } else {
            self.reg.get_de()
        };
        self.reg.a = self.bus.leer_byte(addr);
        self.reg.pc = wadd16(self.reg.pc, 1);
        proof {
            assert(self@ =~= step_spec(old(self)@));
        }
        7
    }

    /// INC dd: a 16-bit increment; no flags are touched.
    fn op_inc_dd(&mut self, op: u8) -> (cycles: u8)
        requires
            !old(self).halt,
            op == bus_byte(old(self)@.bus, old(self).reg.pc),
            op == 0x03 || op == 0x13 || op == 0x23 || op == 0x33,
        ensures
            final(self)@ == step_spec(old(self)@),
            cycles == step_cycles(old(self)@),
    {
        let d = op >> 4;
        let v = wadd16(self.get_dd(d), 1);
        self.set_dd(d, v);
        self.reg.pc = wadd16(self.reg.pc, 1);
        proof {
            assert(self@ =~= step_spec(old(self)@));
        }
        6
    }

    /// DEC dd: a 16-bit decrement; no flags are touched.
    fn op_dec_dd(&mut self, op: u8) -> (cycles: u8)
        requires
            !old(self).halt,
            op == bus_byte(old(self)@.bus, old(self).reg.pc),
            op == 0x0B || op == 0x1B || op == 0x2B || op == 0x3B,
        ensures
            final(self)@ == step_spec(old(self)@),
            cycles == step_cycles(old(self)@),
    {
        let d = op >> 4;
        let v = wadd16(self.get_dd(d), 0xFFFF);
        self.set_dd(d, v);
        self.reg.pc = wadd16(self.reg.pc, 1);
        proof {
            assert(self@ =~= step_spec(old(self)@));
        }
        6
    }

    /// INC r.
    fn op_inc_r(&mut self, op: u8) -> (cycles: u8)
        requires
            !old(self).halt,
            op == bus_byte(old(self)@.bus, old(self).reg.pc),
            op == 0x04 || op == 0x0C || op == 0x14 || op == 0x1C || op == 0x24 || op == 0x2C
                || op == 0x3C,
        ensures
            final(self)@ == step_spec(old(self)@),
            cycles == step_cycles(old(self)@),
    {
        let i = (op >> 3) & 0x07;
        let v = self.get_r8(i);
        self.set_r8(i, inc8_exec(v));
        self.set_inc_flags(v);
        self.reg.pc = wadd16(self.reg.pc, 1);
        proof {
            assert(self@ =~= step_spec(old(self)@));
        }
        4
    }

    /// DEC r.
    fn op_dec_r(&mut self, op: u8) -> (cycles: u8)
        requires
            !old(self).halt,
            op == bus_byte(old(self)@.bus, old(self).reg.pc),
            op == 0x05 || op == 0x0D || op == 0x15 || op == 0x1D || op == 0x25 || op == 0x2D
                || op == 0x3D,
        ensures
            final(self)@ == step_spec(old(self)@),
            cycles == step_cycles(old(self)@),
    {
        let i = (op >> 3) & 0x07;
        let v = self.get_r8(i);
        self.set_r8(i, dec8_exec(v));
        self.set_dec_flags(v);
        self.reg.pc = wadd16(self.reg.pc, 1);
        proof {
            assert(self@ =~= step_spec(old(self)@));
        }
        4
    }

    /// INC (HL).
    fn op_inc_phl(&mut self) -> (cycles: u8)
        requires
            !old(self).halt,
            bus_byte(old(self)@.bus, old(self).reg.pc) == 0x34,
        ensures
            final(self)@ == step_spec(old(self)@),
            cycles == step_cycles(old(self)@),
    {
        let hl = self.reg.get_hl();
        let v = self.bus.leer_byte(hl);
        self.bus.escribir_byte(hl, inc8_exec(v));
        self.set_inc_flags(v);
        self.reg.pc = wadd16(self.reg.pc, 1);
        proof {
            assert(self@ =~= step_spec(old(self)@));
        }
        11
    }

    /// DEC (HL).
    fn op_dec_phl(&mut self) -> (cycles: u8)
        requires
            !old(self).halt,
            bus_byte(old(self)@.bus, old(self).reg.pc) == 0x35,
        ensures
            final(self)@ == step_spec(old(self)@),
            cycles == step_cycles(old(self)@),
    {
        let hl = self.reg.get_hl();
        let v = self.bus.leer_byte(hl);
        self.bus.escribir_byte(hl, dec8_exec(v));
        self.set_dec_flags(v);
        self.reg.pc = wadd16(self.reg.pc, 1);
        proof {
            assert(self@ =~= step_spec(old(self)@));
        }
        11
    }

    /// LD r,n.
    fn op_ld_r_n(&mut self, op: u8) -> (cycles: u8)
        requires
            !old(self).halt,
            op == bus_byte(old(self)@.bus, old(self).reg.pc),
            op == 0x06 || op == 0x0E || op == 0x16 || op == 0x1E || op == 0x26 || op == 0x2E
                || op == 0x3E,
        ensures
            final(self)@ == step_spec(old(self)@),
            cycles == step_cycles(old(self)@),
    {
        let pc = self.reg.pc;
        let n = self.bus.leer_byte(wadd16(pc, 1));
        self.set_r8((op >> 3) & 0x07, n);
        self.reg.pc = wadd16(pc, 2);
        proof {
            assert(self@ =~= step_spec(old(self)@));
        }
        7
    }

    /// LD (HL),n.
    fn op_ld_phl_n(&mut self) -> (cycles: u8)
        requires
            !old(self).halt,
            bus_byte(old(self)@.bus, old(self).reg.pc) == 0x36,
        ensures
            final(self)@ == step_spec(old(self)@),
            cycles == step_cycles(old(self)@),
    {
        let pc = self.reg.pc;
        let n = self.bus.leer_byte(wadd16(pc, 1));
        let hl = self.reg.get_hl();
        self.bus.escribir_byte(hl, n);
        self.reg.pc = wadd16(pc, 2);
        proof {
            assert(self@ =~= step_spec(old(self)@));
        }
        10
    }

    /// RLCA: rotate the accumulator left one bit, bit 7 into both bit 0
    /// and the carry; only H, N and C change.
    fn op_rlca(&mut self) -> (cycles: u8)
        requires
            !old(self).halt,
            bus_byte(old(self)@.bus, old(self).reg.pc) == 0x07,
        ensures
            final(self)@ == step_spec(old(self)@),
            cycles == step_cycles(old(self)@),
    {
        let a = self.reg.a;
        self.reg.a = (a << 1) | (a >> 7);
        self.reg.flags.h = false;
        self.reg.flags.n = false;
        self.reg.flags.c = a & 0x80 != 0;
        self.reg.pc = wadd16(self.reg.pc, 1);
        proof {
            assert(self@ =~= step_spec(old(self)@));
        }
        4
    }

    /// RLA: rotate left through the carry; the old carry enters bit 0.
    fn op_rla(&mut self) -> (cycles: u8)
        requires
            !old(self).halt,
            bus_byte(old(self)@.bus, old(self).reg.pc) == 0x17,
        ensures
            final(self)@ == step_spec(old(self)@),
            cycles == step_cycles(old(self)@),
    {
        let a = self.reg.a;
        let cin: u8 = if self.reg.flags.c {
            1
        } else {
            0
        };
        self.reg.a = (a << 1) | cin;
        self.reg.flags.h = false;
        self.reg.flags.n = false;
        self.reg.flags.c = a & 0x80 != 0;
        self.reg.pc = wadd16(self.reg.pc, 1);
        proof {
            assert(self@ =~= step_spec(old(self)@));
        }
        4
    }

    /// RRCA: rotate the accumulator right one bit, bit 0 into both bit 7
    /// and the carry; only H, N and C change.
    fn op_rrca(&mut self) -> (cycles: u8)
        requires
            !old(self).halt,
            bus_byte(old(self)@.bus, old(self).reg.pc) == 0x0F,
        ensures
            final(self)@ == step_spec(old(self)@),
            cycles == step_cycles(old(self)@),
    {
        let a = self.reg.a;
        self.reg.a = (a >> 1) | (a << 7);
        self.reg.flags.h = false;
        self.reg.flags.n = false;
        self.reg.flags.c = a & 0x01 != 0;
        self.reg.pc = wadd16(self.reg.pc, 1);
        proof {
            assert(self@ =~= step_spec(old(self)@));
        }
        4
    }

    /// RRA: rotate right through the carry; the old carry enters bit 7.
    fn op_rra(&mut self) -> (cycles: u8)
        requires
            !old(self).halt,
            bus_byte(old(self)@.bus, old(self).reg.pc) == 0x1F,
        ensures
            final(self)@ == step_spec(old(self)@),
            cycles == step_cycles(old(self)@),
    {
        let a = self.reg.a;
        let cin: u8 = if self.reg.flags.c {
            0x80
        } else {
            0
        };
        self.reg.a = (a >> 1) | cin;
        self.reg.flags.h = false;
        self.reg.flags.n = false;
        self.reg.flags.c = a & 0x01 != 0;
        self.reg.pc = wadd16(self.reg.pc, 1);
        proof {
            assert(self@ =~= step_spec(old(self)@));
        }
        4
    }

    /// EX AF,AF': swap the accumulator and the flags with the shadow set.
    fn op_ex_af_afp(&mut self) -> (cycles: u8)
        requires
            !old(self).halt,
            bus_byte(old(self)@.bus, old(self).reg.pc) == 0x08,
        ensures
            final(self)@ == step_spec(old(self)@),
            cycles == step_cycles(old(self)@),
    {
        let a = self.reg.a;
        let f = self.reg.flags;
        self.reg.a = self.alt.a;
        self.reg.flags = self.alt.flags;
        self.alt.a = a;
        self.alt.flags = f;
        self.reg.pc = wadd16(self.reg.pc, 1);
        proof {
            assert(self@ =~= step_spec(old(self)@));
        }
        4
    }

    /// ADD HL,ss: 16-bit addition with wraparound; H is the carry out of
    /// bit 11, C the carry out of bit 15, N is cleared.
    fn op_add_hl_dd(&mut self, op: u8) -> (cycles: u8)
        requires
            !old(self).halt,
            op == bus_byte(old(self)@.bus, old(self).reg.pc),
            op == 0x09 || op == 0x19 || op == 0x29 || op == 0x39,
        ensures
            final(self)@ == step_spec(old(self)@),
            cycles == step_cycles(old(self)@),
    {
        let hl = self.reg.get_hl();
        let ss = self.get_dd(op >> 4);
        let v = wadd16(hl, ss);
        self.reg.set_hl(v);
        self.reg.flags.h = ((hl & 0x0FFF) as u32) + ((ss & 0x0FFF) as u32) > 0x0FFF;
        self.reg.flags.n = false;
        self.reg.flags.c = (hl as u32) + (ss as u32) > 0xFFFF;
        self.reg.pc = wadd16(self.reg.pc, 1);
        proof {
            assert(self@ =~= step_spec(old(self)@));
        }
        11
    }

    /// DJNZ d: decrement B and take the relative jump while B has not
    /// reached zero; no flags are touched.
    fn op_djnz(&mut self) -> (cycles: u8)
        requires
            !old(self).halt,
            bus_byte(old(self)@.bus, old(self).reg.pc) == 0x10,
        ensures
            final(self)@ == step_spec(old(self)@),
            cycles == step_cycles(old(self)@),
    {
        let pc = self.reg.pc;
        let d = self.bus.leer_byte(wadd16(pc, 1));
        let b2 = dec8_exec(self.reg.b);
        self.reg.b = b2;
        if b2 != 0 {
            self.reg.pc = jump_target(pc, d);
            proof {
                assert(self@ =~= step_spec(old(self)@));
            }
            13
        } else {
            self.reg.pc = wadd16(pc, 2);
            proof {
                assert(self@ =~= step_spec(old(self)@));
            }
            8
        }
    }

    /// JR d and its conditional forms JR NZ / JR Z / JR NC / JR C: the
    /// shared signed-displacement decode applied when the condition holds.
    fn op_jr(&mut self, op: u8) -> (cycles: u8)
        requires
            !old(self).halt,
            op == bus_byte(old(self)@.bus, old(self).reg.pc),
            op == 0x18 || op == 0x20 || op == 0x28 || op == 0x30 || op == 0x38,
        ensures
            final(self)@ == step_spec(old(self)@),
            cycles == step_cycles(old(self)@),
    {
        let pc = self.reg.pc;
        let d = self.bus.leer_byte(wadd16(pc, 1));
        let taken = match op {
            0x18 => true,
            0x20 => !self.reg.flags.z,
            0x28 => self.reg.flags.z,
            0x30 => !self.reg.flags.c,
            _ => self.reg.flags.c,
        };
        if taken {
            self.reg.pc = jump_target(pc, d);
            proof {
                assert(self@ =~= step_spec(old(self)@));
            }
            12
        } else {
            self.reg.pc = wadd16(pc, 2);
            proof {
                assert(self@ =~= step_spec(old(self)@));
            }
            7
        }
    }

    /// LD (nn),HL: L goes to nn, H to the following address; each byte
    /// passes the bus's own bounds and read-only checks.
    fn op_ld_pnn_hl(&mut self) -> (cycles: u8)
        requires
            !old(self).halt,
            bus_byte(old(self)@.bus, old(self).reg.pc) == 0x22,
        ensures
            final(self)@ == step_spec(old(self)@),
            cycles == step_cycles(old(self)@),
    {
        let pc = self.reg.pc;
        let w = self.operand_word();
        self.bus.escribir_byte(w, self.reg.l);
        self.bus.escribir_byte(wadd16(w, 1), self.reg.h);
        self.reg.pc = wadd16(pc, 3);
        proof {
            assert(self@ =~= step_spec(old(self)@));
        }
        16
    }

    /// LD HL,(nn): L from nn, H from the following address.
    fn op_ld_hl_pnn(&mut self) -> (cycles: u8)
        requires
            !old(self).halt,
            bus_byte(old(self)@.bus, old(self).reg.pc) == 0x2A,
        ensures
            final(self)@ == step_spec(old(self)@),
            cycles == step_cycles(old(self)@),
    {
        let pc = self.reg.pc;
        let w = self.operand_word();
        self.reg.l = self.bus.leer_byte(w);
        self.reg.h = self.bus.leer_byte(wadd16(w, 1));
        self.reg.pc = wadd16(pc, 3);
        proof {
            assert(self@ =~= step_spec(old(self)@));
        }
        16
    }

    /// LD (nn),A.
    fn op_ld_pnn_a(&mut self) -> (cycles: u8)
        requires
            !old(self).halt,
            bus_byte(old(self)@.bus, old(self).reg.pc) == 0x32,
        ensures
            final(self)@ == step_spec(old(self)@),
            cycles == step_cycles(old(self)@),
    {
        let pc = self.reg.pc;
        let w = self.operand_word();
        self.bus.escribir_byte(w, self.reg.a);
        self.reg.pc = wadd16(pc, 3);
        proof {
            assert(self@ =~= step_spec(old(self)@));
        }
        13
    }

    /// LD A,(nn).
    fn op_ld_a_pnn(&mut self) -> (cycles: u8)
        requires
            !old(self).halt,
            bus_byte(old(self)@.bus, old(self).reg.pc) == 0x3A,
        ensures
            final(self)@ == step_spec(old(self)@),
            cycles == step_cycles(old(self)@),
    {
        let pc = self.reg.pc;
        let w = self.operand_word();
        self.reg.a = self.bus.leer_byte(w);
        self.reg.pc = wadd16(pc, 3);
        proof {
            assert(self@ =~= step_spec(old(self)@));
        }
        13
    }

    /// DAA: decimal-adjust the accumulator so a preceding BCD addition or
    /// subtraction leaves a BCD result.
    fn op_daa(&mut self) -> (cycles: u8)
        requires
            !old(self).halt,
            bus_byte(old(self)@.bus, old(self).reg.pc) == 0x27,
        ensures
            final(self)@ == step_spec(old(self)@),
            cycles == step_cycles(old(self)@),
    {
        let a = self.reg.a;
        let low_adj = self.reg.flags.h || a & 0x0F > 0x09;
        let high_adj = self.reg.flags.c || a > 0x99;
        let corr: u8 = (if low_adj {
            0x06
        } else {
            0x00
        }) | (if high_adj {
            0x60
        } else {
            0x00
        });
        let r: u8 = if self.reg.flags.n {
            (((a as u16) + 0x100 - (corr as u16)) % 0x100) as u8
        } else {
            (((a as u16) + (corr as u16)) % 0x100) as u8
        };
        self.reg.a = r;
        self.reg.flags.s = r >= 0x80;
        self.reg.flags.z = r == 0;
        self.reg.flags.h = (a ^ r) & 0x10 != 0;
        self.reg.flags.p = parity_even(r);
        self.reg.flags.c = high_adj;
        self.reg.pc = wadd16(self.reg.pc, 1);
        proof {
            assert(self@ =~= step_spec(old(self)@));
        }
        4
    }

    /// CPL: complement every bit of the accumulator; H and N are set.
    fn op_cpl(&mut self) -> (cycles: u8)
        requires
            !old(self).halt,
            bus_byte(old(self)@.bus, old(self).reg.pc) == 0x2F,
        ensures
            final(self)@ == step_spec(old(self)@),
            cycles == step_cycles(old(self)@),
    {
        self.reg.a = !self.reg.a;
        self.reg.flags.h = true;
        self.reg.flags.n = true;
        self.reg.pc = wadd16(self.reg.pc, 1);
        proof {
            assert(self@ =~= step_spec(old(self)@));
        }
        4
    }

    /// SCF: set the carry; H and N are cleared.
    fn op_scf(&mut self) -> (cycles: u8)
        requires
            !old(self).halt,
            bus_byte(old(self)@.bus, old(self).reg.pc) == 0x37,
        ensures
            final(self)@ == step_spec(old(self)@),
            cycles == step_cycles(old(self)@),
    {
        self.reg.flags.h = false;
        self.reg.flags.n = false;
        self.reg.flags.c = true;
        self.reg.pc = wadd16(self.reg.pc, 1);
        proof {
            assert(self@ =~= step_spec(old(self)@));
        }
        4
    }

    /// CCF: invert the carry; the old carry lands in H, N is cleared.
    fn op_ccf(&mut self) -> (cycles: u8)
        requires
            !old(self).halt,
            bus_byte(old(self)@.bus, old(self).reg.pc) == 0x3F,
        ensures
            final(self)@ == step_spec(old(self)@),
            cycles == step_cycles(old(self)@),
    {
        let c = self.reg.flags.c;
        self.reg.flags.h = c;
        self.reg.flags.n = false;
        self.reg.flags.c = !c;
        self.reg.pc = wadd16(self.reg.pc, 1);
        proof {
            assert(self@ =~= step_spec(old(self)@));
        }
        4
    }

    /// HALT: enter the halted state; every later step is a no-op until a
    /// reset.
    fn op_halt(&mut self) -> (cycles: u8)
        requires
            !old(self).halt,
            bus_byte(old(self)@.bus, old(self).reg.pc) == 0x76,
        ensures
            final(self)@ == step_spec(old(self)@),
            cycles == step_cycles(old(self)@),
    {
        self.halt = true;
        self.reg.pc = wadd16(self.reg.pc, 1);
        proof {
            assert(self@ =~= step_spec(old(self)@));
        }
        4
    }

    /// LD r,r': the whole register-to-register load block, rows through
    /// memory at HL included.
    fn op_ld_rr(&mut self, op: u8) -> (cycles: u8)
        requires
            !old(self).halt,
            op == bus_byte(old(self)@.bus, old(self).reg.pc),
            0x40 <= op <= 0x7F,
            op != 0x76,
        ensures
            final(self)@ == step_spec(old(self)@),
            cycles == step_cycles(old(self)@),
    {
        let d = (op >> 3) & 0x07;
        let s = op & 0x07;
        let hl = self.reg.get_hl();
        let v = if s == 6 {
            self.bus.leer_byte(hl)
        } else {
            self.get_r8(s)
        };
        if d == 6 {
            self.bus.escribir_byte(hl, v);
            self.reg.pc = wadd16(self.reg.pc, 1);
            proof {
                assert(self@ =~= step_spec(old(self)@));
            }
            7
        } else {
            self.set_r8(d, v);
            self.reg.pc = wadd16(self.reg.pc, 1);
            proof {
                assert(self@ =~= step_spec(old(self)@));
            }
            if s == 6 {
                7
            } else {
                4
            }
        }
    }

    /// One 8-bit ALU operation against a register row or memory at HL.
    fn op_alu_r(&mut self, op: u8) -> (cycles: u8)
        requires
            !old(self).halt,
            op == bus_byte(old(self)@.bus, old(self).reg.pc),
            0x80 <= op <= 0xBF,
        ensures
            final(self)@ == step_spec(old(self)@),
            cycles == step_cycles(old(self)@),
    {
        let s = op & 0x07;
        let v = if s == 6 {
            self.bus.leer_byte(self.reg.get_hl())
        } else {
            self.get_r8(s)
        };
        self.alu_exec((op >> 3) & 0x07, v);
        self.reg.pc = wadd16(self.reg.pc, 1);
        proof {
            assert(self@ =~= step_spec(old(self)@));
        }
        if s == 6 {
            7
        } else {
            4
        }
    }

    /// One 8-bit ALU operation against the immediate operand.
    fn op_alu_n(&mut self, op: u8) -> (cycles: u8)
        requires
            !old(self).halt,
            op == bus_byte(old(self)@.bus, old(self).reg.pc),
            op == 0xC6 || op == 0xCE || op == 0xD6 || op == 0xDE || op == 0xE6 || op == 0xEE
                || op == 0xF6 || op == 0xFE,
        ensures
            final(self)@ == step_spec(old(self)@),
            cycles == step_cycles(old(self)@),
    {
        let pc = self.reg.pc;
        let n = self.bus.leer_byte(wadd16(pc, 1));
        self.alu_exec((op >> 3) & 0x07, n);
        self.reg.pc = wadd16(pc, 2);
        proof {
            assert(self@ =~= step_spec(old(self)@));
        }
        7
    }

    /// Applies ALU row `k` to the accumulator and `v`, flags included.
    fn alu_exec(&mut self, k: u8, v: u8)
        ensures
            final(self).reg == alu_apply(old(self).reg, k as int, v),
            final(self).alt == old(self).alt,
            final(self).bus@ == old(self).bus@,
            final(self).halt == old(self).halt,
    {
        let a = self.reg.a;
        let cin: u8 = if (k == 1 || k == 3) && self.reg.flags.c {
            1
        } else {
            0
        };
        if k == 0 || k == 1 {
            let sum: u16 = a as u16 + v as u16 + cin as u16;
            let res = (sum % 0x100) as u8;
            self.reg.a = res;
            self.reg.flags.s = res >= 0x80;
            self.reg.flags.z = res == 0;
            self.reg.flags.h = ((a & 0x0F) as u16) + ((v & 0x0F) as u16) + (cin as u16) > 0x0F;
            self.reg.flags.p = ((a >= 0x80) == (v >= 0x80)) && ((res >= 0x80) != (a >= 0x80));
            self.reg.flags.n = false;
            self.reg.flags.c = sum > 0xFF;
        } else if k == 2 || k == 3 || k == 7 {
            let diff: u16 = a as u16 + 0x100 - v as u16 - cin as u16;
            let res = (diff % 0x100) as u8;
            if k != 7 {
                self.reg.a = res;
            }
            self.reg.flags.s = res >= 0x80;
            self.reg.flags.z = res == 0;
            self.reg.flags.h = ((a & 0x0F) as u16) < ((v & 0x0F) as u16) + (cin as u16);
            self.reg.flags.p = ((a >= 0x80) != (v >= 0x80)) && ((res >= 0x80) != (a >= 0x80));
            self.reg.flags.n = true;
            self.reg.flags.c = (a as u16) < (v as u16) + (cin as u16);
        } else {
            let res = if k == 4 {
                a & v
            } else if k == 5 {
                a ^ v
            } else {
                a | v
            };
            self.reg.a = res;
            self.reg.flags.s = res >= 0x80;
            self.reg.flags.z = res == 0;
            self.reg.flags.h = k == 4;
            self.reg.flags.p = parity_even(res);
            self.reg.flags.n = false;
            self.reg.flags.c = false;
        }
    }

    /// Whether the condition of opcode row `cc` holds of the flags.
    fn cond(&self, cc: u8) -> (b: bool)
        ensures
            b == cond_holds(self.reg.flags, cc as int),
    {
        match cc {
            0 => !self.reg.flags.z,
            1 => self.reg.flags.z,
            2 => !self.reg.flags.c,
            3 => self.reg.flags.c,
            4 => !self.reg.flags.p,
            5 => self.reg.flags.p,
            6 => !self.reg.flags.s,
            _ => self.reg.flags.s,
        }
    }

    /// Pushes a 16-bit value: the high byte one below the stack pointer,
    /// the low byte one further down, the stack pointer moved past both.
    fn push_word(&mut self, v: u16)
        ensures
            final(self).reg == (Registros {
                sp: wrap16(old(self).reg.sp + 0xFFFE),
                ..old(self).reg
            }),
            final(self).bus@ == push_spec(old(self).bus@, old(self).reg.sp, v),
            final(self).alt == old(self).alt,
            final(self).halt == old(self).halt,
    {
        let sp = self.reg.sp;
        self.bus.escribir_byte(wadd16(sp, 0xFFFF), ((v & 0xFF00) >> 8) as u8);
        self.bus.escribir_byte(wadd16(sp, 0xFFFE), (v & 0xFF) as u8);
        self.reg.sp = wadd16(sp, 0xFFFE);
    }

    /// Pops the 16-bit value at the top of the stack: the low byte at the
    /// stack pointer, the high byte above it.
    fn pop_word(&mut self) -> (v: u16)
        ensures
            v == stack_top(old(self).bus@, old(self).reg.sp),
            final(self).reg == (Registros { sp: wrap16(old(self).reg.sp + 2), ..old(self).reg }),
            final(self).bus@ == old(self).bus@,
            final(self).alt == old(self).alt,
            final(self).halt == old(self).halt,
    {
        let sp = self.reg.sp;
        let lo = self.bus.leer_byte(sp);
        let hi = self.bus.leer_byte(wadd16(sp, 1));
        self.reg.sp = wadd16(sp, 2);
        (hi as u16) << 8 | lo as u16
    }

    /// JP nn.
    fn op_jp_nn(&mut self) -> (cycles: u8)
        requires
            !old(self).halt,
            bus_byte(old(self)@.bus, old(self).reg.pc) == 0xC3,
        ensures
            final(self)@ == step_spec(old(self)@),
            cycles == step_cycles(old(self)@),
    {
        let w = self.operand_word();
        self.reg.pc = w;
        proof {
            assert(self@ =~= step_spec(old(self)@));
        }
        10
    }

    /// JP cc,nn.
    fn op_jp_cc(&mut self, op: u8) -> (cycles: u8)
        requires
            !old(self).halt,
            op == bus_byte(old(self)@.bus, old(self).reg.pc),
            op == 0xC2 || op == 0xCA || op == 0xD2 || op == 0xDA || op == 0xE2 || op == 0xEA
                || op == 0xF2 || op == 0xFA,
        ensures
            final(self)@ == step_spec(old(self)@),
            cycles == step_cycles(old(self)@),
    {
        let w = self.operand_word();
        let pc = self.reg.pc;
        if self.cond((op >> 3) & 0x07) {
            self.reg.pc = w;
        } else {
            self.reg.pc = wadd16(pc, 3);
        }
        proof {
            assert(self@ =~= step_spec(old(self)@));
        }
        10
    }

    /// JP (HL): the jump target is the live contents of HL.
    fn op_jp_hl(&mut self) -> (cycles: u8)
        requires
            !old(self).halt,
            bus_byte(old(self)@.bus, old(self).reg.pc) == 0xE9,
        ensures
            final(self)@ == step_spec(old(self)@),
            cycles == step_cycles(old(self)@),
    {
        let hl = self.reg.get_hl();
        self.reg.pc = hl;
        proof {
            assert(self@ =~= step_spec(old(self)@));
        }
        4
    }

    /// CALL nn and CALL cc,nn: push the address of the next instruction
    /// and jump when the condition holds.
    fn op_call(&mut self, op: u8) -> (cycles: u8)
        requires
            !old(self).halt,
            op == bus_byte(old(self)@.bus, old(self).reg.pc),
            op == 0xCD || op == 0xC4 || op == 0xCC || op == 0xD4 || op == 0xDC || op == 0xE4
                || op == 0xEC || op == 0xF4 || op == 0xFC,
        ensures
            final(self)@ == step_spec(old(self)@),
            cycles == step_cycles(old(self)@),
    {
        let w = self.operand_word();
        let pc = self.reg.pc;
        let taken = op == 0xCD || self.cond((op >> 3) & 0x07);
        if taken {
            self.push_word(wadd16(pc, 3));
            self.reg.pc = w;
            proof {
                assert(self@ =~= step_spec(old(self)@));
            }
            17
        } else {
            self.reg.pc = wadd16(pc, 3);
            proof {
                assert(self@ =~= step_spec(old(self)@));
            }
            10
        }
    }

    /// RET: pop the return address into the program counter.
    fn op_ret(&mut self) -> (cycles: u8)
        requires
            !old(self).halt,
            bus_byte(old(self)@.bus, old(self).reg.pc) == 0xC9,
        ensures
            final(self)@ == step_spec(old(self)@),
            cycles == step_cycles(old(self)@),
    {
        let t = self.pop_word();
        self.reg.pc = t;
        proof {
            assert(self@ =~= step_spec(old(self)@));
        }
        10
    }

    /// RET cc.
    fn op_ret_cc(&mut self, op: u8) -> (cycles: u8)
        requires
            !old(self).halt,
            op == bus_byte(old(self)@.bus, old(self).reg.pc),
            op == 0xC0 || op == 0xC8 || op == 0xD0 || op == 0xD8 || op == 0xE0 || op == 0xE8
                || op == 0xF0 || op == 0xF8,
        ensures
            final(self)@ == step_spec(old(self)@),
            cycles == step_cycles(old(self)@),
    {
        if self.cond((op >> 3) & 0x07) {
            let t = self.pop_word();
            self.reg.pc = t;
            proof {
                assert(self@ =~= step_spec(old(self)@));
            }
            11
        } else {
            self.reg.pc = wadd16(self.reg.pc, 1);
            proof {
                assert(self@ =~= step_spec(old(self)@));
            }
            5
        }
    }

    /// RST t: push the address of the next instruction and jump to the
    /// fixed vector encoded in the opcode.
    fn op_rst(&mut self, op: u8) -> (cycles: u8)
        requires
            !old(self).halt,
            op == bus_byte(old(self)@.bus, old(self).reg.pc),
            op == 0xC7 || op == 0xCF || op == 0xD7 || op == 0xDF || op == 0xE7 || op == 0xEF
                || op == 0xF7 || op == 0xFF,
        ensures
            final(self)@ == step_spec(old(self)@),
            cycles == step_cycles(old(self)@),
    {
        let pc = self.reg.pc;
        self.push_word(wadd16(pc, 1));
        self.reg.pc = (op & 0x38) as u16;
        proof {
            assert(self@ =~= step_spec(old(self)@));
        }
        11
    }

    /// PUSH qq: BC, DE, HL, or AF with the packed flag byte as the low
    /// half.
    fn op_push(&mut self, op: u8) -> (cycles: u8)
        requires
            !old(self).halt,
            op == bus_byte(old(self)@.bus, old(self).reg.pc),
            op == 0xC5 || op == 0xD5 || op == 0xE5 || op == 0xF5,
        ensures
            final(self)@ == step_spec(old(self)@),
            cycles == step_cycles(old(self)@),
    {
        let q = (op >> 4) & 0x03;
        let v = if q == 3 {
            self.reg.get_af()
        } else {
            self.get_dd(q)
        };
        let pc = self.reg.pc;
        self.push_word(v);
        self.reg.pc = wadd16(pc, 1);
        proof {
            assert(self@ =~= step_spec(old(self)@));
        }
        11
    }

    /// POP qq: BC, DE, HL, or AF with the low byte unpacked into the
    /// flags.
    #[verifier::rlimit(30)]
    #[verifier::spinoff_prover]
    fn op_pop(&mut self, op: u8) -> (cycles: u8)
        requires
            !old(self).halt,
            op == bus_byte(old(self)@.bus, old(self).reg.pc),
            op == 0xC1 || op == 0xD1 || op == 0xE1 || op == 0xF1,
        ensures
            final(self)@ == step_spec(old(self)@),
            cycles == step_cycles(old(self)@),
    {
        let q = (op >> 4) & 0x03;
        proof {
            assert((op >> 4) & 0x03 < 4) by (bit_vector);
        }
        let pc = self.reg.pc;
        let v = self.pop_word();
        if q == 3 {
            self.reg.set_af(v);
        } else {
            self.set_dd(q, v);
        }
        self.reg.pc = wadd16(pc, 1);
        proof {
            assert(self@ =~= step_spec(old(self)@));
        }
        10
    }

    /// EX DE,HL.
    fn op_ex_de_hl(&mut self) -> (cycles: u8)
        requires
            !old(self).halt,
            bus_byte(old(self)@.bus, old(self).reg.pc) == 0xEB,
        ensures
            final(self)@ == step_spec(old(self)@),
            cycles == step_cycles(old(self)@),
    {
        let d = self.reg.d;
        let e = self.reg.e;
        self.reg.d = self.reg.h;
        self.reg.e = self.reg.l;
        self.reg.h = d;
        self.reg.l = e;
        self.reg.pc = wadd16(self.reg.pc, 1);
        proof {
            assert(self@ =~= step_spec(old(self)@));
        }
        4
    }

    /// EXX: swap BC, DE and HL with the shadow register set.
    fn op_exx(&mut self) -> (cycles: u8)
        requires
            !old(self).halt,
            bus_byte(old(self)@.bus, old(self).reg.pc) == 0xD9,
        ensures
            final(self)@ == step_spec(old(self)@),
            cycles == step_cycles(old(self)@),
    {
        let b = self.reg.b;
        let c = self.reg.c;
        let d = self.reg.d;
        let e = self.reg.e;
        let h = self.reg.h;
        let l = self.reg.l;
        self.reg.b = self.alt.b;
        self.reg.c = self.alt.c;
        self.reg.d = self.alt.d;
        self.reg.e = self.alt.e;
        self.reg.h = self.alt.h;
        self.reg.l = self.alt.l;
        self.alt.b = b;
        self.alt.c = c;
        self.alt.d = d;
        self.alt.e = e;
        self.alt.h = h;
        self.alt.l = l;
        self.reg.pc = wadd16(self.reg.pc, 1);
        proof {
            assert(self@ =~= step_spec(old(self)@));
        }
        4
    }

    /// EX (SP),HL: swap HL with the word at the top of the stack; the
    /// stack pointer does not move.
    fn op_ex_psp_hl(&mut self) -> (cycles: u8)
        requires
            !old(self).halt,
            bus_byte(old(self)@.bus, old(self).reg.pc) == 0xE3,
        ensures
            final(self)@ == step_spec(old(self)@),
            cycles == step_cycles(old(self)@),
    {
        let sp = self.reg.sp;
        let lo = self.bus.leer_byte(sp);
        let hi = self.bus.leer_byte(wadd16(sp, 1));
        self.bus.escribir_byte(sp, self.reg.l);
        self.bus.escribir_byte(wadd16(sp, 1), self.reg.h);
        self.reg.h = hi;
        self.reg.l = lo;
        self.reg.pc = wadd16(self.reg.pc, 1);
        proof {
            crate::registers::lemma_pair_split(0, hi, lo);
            assert(self@ =~= step_spec(old(self)@));
        }
        19
    }

    /// LD SP,HL.
    fn op_ld_sp_hl(&mut self) -> (cycles: u8)
        requires
            !old(self).halt,
            bus_byte(old(self)@.bus, old(self).reg.pc) == 0xF9,
        ensures
            final(self)@ == step_spec(old(self)@),
            cycles == step_cycles(old(self)@),
    {
        let hl = self.reg.get_hl();
        self.reg.sp = hl;
        self.reg.pc = wadd16(self.reg.pc, 1);
        proof {
            assert(self@ =~= step_spec(old(self)@));
        }
        6
    }

    /// An opcode the engine does not carry — the prefix bytes, the I/O
    /// port pair and the interrupt pair, all outside the modelled
    /// register-and-memory semantics: advance the program counter by the
    /// opcode's encoded length and change nothing else.
    fn op_sin_semantica(&mut self, op: u8) -> (cycles: u8)
        requires
            !old(self).halt,
            op == bus_byte(old(self)@.bus, old(self).reg.pc),
            op == 0xCB || op == 0xD3 || op == 0xDB || op == 0xDD || op == 0xED || op == 0xFD
                || op == 0xF3 || op == 0xFB,
        ensures
            final(self)@ == step_spec(old(self)@),
            cycles == step_cycles(old(self)@),
    {
        self.reg.pc = wadd16(self.reg.pc, instr_len(op) as u16);
        proof {
            assert(self@ =~= step_spec(old(self)@));
        }
        0
    }

    /// Leaves the machine as `CPU::new` made it, the memory wiped to zero
    /// as well; only a declared read-only window survives.
    pub fn reset(&mut self)
        ensures
            final(self).reg == Registros::new_spec(),
            final(self).alt == Registros::new_spec(),
            !final(self).halt,
            final(self)@.bus.mem.len() == old(self)@.bus.mem.len(),
            forall|i: int| 0 <= i < final(self)@.bus.mem.len() ==> final(self)@.bus.mem[i] == 0,
            final(self)@.bus.rom == old(self)@.bus.rom,
    {
        self.reg = Registros::new();
        self.alt = Registros::new();
        self.halt = false;
        let top = self.bus.mem_len();
        if top > 0 {
            self.bus.clear_mem_slice(0, top - 1);
        }
    }

    /// Re-enters the running state with cleared registers but leaves the
    /// memory exactly as it is.
    pub fn reset_sin_modificar_memoria(&mut self)
        ensures
            final(self).reg == Registros::new_spec(),
            final(self).alt == Registros::new_spec(),
            !final(self).halt,
            final(self)@.bus == old(self)@.bus,
    {
        self.reg = Registros::new();
        self.alt = Registros::new();
        self.halt = false;
    }

    /// Writes the INC flag effects for an original value `v`.
    fn set_inc_flags(&mut self, v: u8)
        ensures
            final(self).reg == (Registros {
                flags: flags_inc8(old(self).reg.flags, v),
                ..old(self).reg
            }),
            final(self).alt == old(self).alt,
            final(self).bus@ == old(self).bus@,
            final(self).halt == old(self).halt,
    {
        let r = inc8_exec(v);
        self.reg.flags.s = r >= 0x80;
        self.reg.flags.z = r == 0;
        self.reg.flags.h = v & 0x0F == 0x0F;
        self.reg.flags.p = v == 0x7F;
        self.reg.flags.n = false;
    }

    /// Writes the DEC flag effects for an original value `v`.
    fn set_dec_flags(&mut self, v: u8)
        ensures
            final(self).reg == (Registros {
                flags: flags_dec8(old(self).reg.flags, v),
                ..old(self).reg
            }),
            final(self).alt == old(self).alt,
            final(self).bus@ == old(self).bus@,
            final(self).halt == old(self).halt,
    {
        let r = dec8_exec(v);
        self.reg.flags.s = r >= 0x80;
        self.reg.flags.z = r == 0;
        self.reg.flags.h = v & 0x0F == 0x00;
        self.reg.flags.p = v == 0x80;
        self.reg.flags.n = true;
    }
}

/// 8-bit increment with wraparound.
fn inc8_exec(v: u8) -> (r: u8)
    ensures
        r == inc8(v),
{
    if v == 0xFF {
        0
    } else {
        v + 1
    }
}

/// 8-bit decrement with wraparound.
fn dec8_exec(v: u8) -> (r: u8)
    ensures
        r == dec8(v),
{
    if v == 0 {
        0xFF
    } else {
        v - 1
    }
}

/// Whether `v` has an even number of set bits.
fn parity_even(v: u8) -> (r: bool)
    ensures
        r == even_parity(v),
{
    let p1 = v ^ (v >> 4);
    let p2 = p1 ^ (p1 >> 2);
    let p3 = p2 ^ (p2 >> 1);
    p3 & 1 == 0
}

/// The encoded length in bytes of the instruction `opcode` opens.
pub fn instr_len(opcode: u8) -> (len: u8)
    ensures
        len == spec_instr_len(opcode),
{
    match opcode {
        0xC3 | 0xDA | 0xD2 | 0xCA | 0xC2 | 0xFA | 0xF2 | 0xEA | 0xE2 | 0xCD | 0xDC | 0xD4 | 0xCC
            | 0xC4 | 0xFC | 0xF4 | 0xEC | 0xE4 => 3,
        0x06 | 0x0E | 0x16 | 0x1E | 0x26 | 0x2E | 0x36 | 0x3E | 0xC6 | 0xCE | 0xD6 | 0xDE | 0xE6
            | 0xF6 | 0xEE | 0xFE | 0xDB | 0xD3 | 0x10 | 0x18 | 0x38 | 0x30 | 0x28 | 0x20
            | 0xCB => 2,
        0x32 | 0x01 | 0x11 | 0x21 | 0x31 | 0x2A | 0x22 | 0x3A => 3,
        _ => 1,
    }
}

/// The relative-jump target is the signed-displacement decode: when the
/// displacement's sign bit is clear the raw byte is added to the address
/// just past the instruction, and when it is set the two's-complement
/// magnitude is subtracted instead — wherever that stays inside the
/// address space, so no wraparound intrudes.
pub proof fn lemma_jr_target_signed_decode(address: u16, displacement: u8)
    ensures
        displacement < 0x80 && address + 2 + displacement <= 0xFFFF ==> spec_jr_target(
            address,
            displacement,
        ) == address + 2 + displacement,
        displacement >= 0x80 && crate::bit::spec_signed_to_abs(displacement) <= address + 2
            <= 0xFFFF + crate::bit::spec_signed_to_abs(displacement) ==> spec_jr_target(
            address,
            displacement,
        ) == address + 2 - crate::bit::spec_signed_to_abs(displacement),
{
}

/// A halted machine is a fixed point of the step: until a reset, every
/// further step changes nothing.
pub proof fn lemma_halted_step_is_noop(pre: CpuView)
    requires
        pre.halt,
    ensures
        step_spec(pre) == pre,
{
}

/// No instruction resizes the address space or moves the read-only
/// window: the bus is created once with a fixed capacity and only its
/// bytes ever change under execution.
#[verifier::rlimit(60)]
pub proof fn lemma_step_preserves_bus_shape(pre: CpuView)
    ensures
        step_spec(pre).bus.mem.len() == pre.bus.mem.len(),
        step_spec(pre).bus.rom == pre.bus.rom,
{
}

/// The opcodes whose step may move the program counter somewhere other
/// than the next instruction: DJNZ, the JR family, the jumps, the calls,
/// the returns and the restarts.
pub open spec fn is_control_transfer(opcode: u8) -> bool {
    opcode == 0x10 || opcode == 0x18 || opcode == 0x20 || opcode == 0x28 || opcode == 0x30
        || opcode == 0x38 || opcode == 0xC3 || opcode == 0xC2 || opcode == 0xCA || opcode == 0xD2
        || opcode == 0xDA || opcode == 0xE2 || opcode == 0xEA || opcode == 0xF2 || opcode == 0xFA
        || opcode == 0xE9 || opcode == 0xCD || opcode == 0xC4 || opcode == 0xCC || opcode == 0xD4
        || opcode == 0xDC || opcode == 0xE4 || opcode == 0xEC || opcode == 0xF4 || opcode == 0xFC
        || opcode == 0xC9 || opcode == 0xC0 || opcode == 0xC8 || opcode == 0xD0 || opcode == 0xD8
        || opcode == 0xE0 || opcode == 0xE8 || opcode == 0xF0 || opcode == 0xF8 || opcode == 0xC7
        || opcode == 0xCF || opcode == 0xD7 || opcode == 0xDF || opcode == 0xE7 || opcode == 0xEF
        || opcode == 0xF7 || opcode == 0xFF
}

/// Whatever opcode is at the program counter, a step of a running machine
/// that is not a control transfer advances the program counter by exactly
/// the byte length the disassembler reports for that opcode: the engine
/// and the disassembler consume one length table.
#[verifier::rlimit(60)]
pub proof fn lemma_step_advances_by_instr_len(pre: CpuView)
    requires
        !pre.halt,
        !is_control_transfer(bus_byte(pre.bus, pre.reg.pc)),
    ensures
        step_spec(pre).reg.pc == wrap16(pre.reg.pc + spec_instr_len(bus_byte(pre.bus, pre.reg.pc))),
{
}

} // verus!
