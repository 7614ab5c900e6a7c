//! The disassembler: a pure, read-only mirror of the instruction
//! engine's decode table. `dasm` renders the instruction at an address as
//! the fixed-column text the debugging output prints — hex operand bytes
//! after the opcode, `$`-prefixed hex for immediates and addresses, and
//! the live operand address for memory-referencing forms — and reports
//! the instruction's byte length from the same [`spec_instr_len`] table
//! the engine advances the program counter by.
//!
//! It takes the processor by shared reference, so it can move neither the
//! registers nor the bus.

use vstd::prelude::*;

use crate::bus::bus_byte;
use crate::cpu::{instr_len, jump_target, spec_instr_len, spec_jr_target, wadd16, wrap16, CpuView, CPU};
use crate::registers::spec_pair;

verus! {

/// The character that renders a hex digit, upper case.
pub open spec fn spec_hex_digit(d: int) -> char {
    if d == 0 {
        '0'
    } else if d == 1 {
        '1'
    } else if d == 2 {
        '2'
    } else if d == 3 {
        '3'
    } else if d == 4 {
        '4'
    } else if d == 5 {
        '5'
    } else if d == 6 {
        '6'
    } else if d == 7 {
        '7'
    } else if d == 8 {
        '8'
    } else if d == 9 {
        '9'
    } else if d == 10 {
        'A'
    } else if d == 11 {
        'B'
    } else if d == 12 {
        'C'
    } else if d == 13 {
        'D'
    } else if d == 14 {
        'E'
    } else {
        'F'
    }
}

/// A byte as two upper-case hex digits.
pub open spec fn spec_hex2(v: u8) -> Seq<char> {
    seq![spec_hex_digit(v as int / 16), spec_hex_digit(v as int % 16)]
}

/// A 16-bit value as four upper-case hex digits.
pub open spec fn spec_hex4(v: u16) -> Seq<char> {
    spec_hex2((v / 256) as u8) + spec_hex2((v % 256) as u8)
}

/// One hex digit as text.
fn hex_str(d: u8) -> (r: &'static str)
    requires
        d < 16,
    ensures
        r@ == seq![spec_hex_digit(d as int)],
{
    match d {
        0 => {
            proof {
                reveal_strlit("0");
                assert("0"@ =~= seq![spec_hex_digit(0)]);
            }
            "0"
        },
        1 => {
            proof {
                reveal_strlit("1");
                assert("1"@ =~= seq![spec_hex_digit(1)]);
            }
            "1"
        },
        2 => {
            proof {
                reveal_strlit("2");
                assert("2"@ =~= seq![spec_hex_digit(2)]);
            }
            "2"
        },
        3 => {
            proof {
                reveal_strlit("3");
                assert("3"@ =~= seq![spec_hex_digit(3)]);
            }
            "3"
        },
        4 => {
            proof {
                reveal_strlit("4");
                assert("4"@ =~= seq![spec_hex_digit(4)]);
            }
            "4"
        },
        5 => {
            proof {
                reveal_strlit("5");
                assert("5"@ =~= seq![spec_hex_digit(5)]);
            }
            "5"
        },
        6 => {
            proof {
                reveal_strlit("6");
                assert("6"@ =~= seq![spec_hex_digit(6)]);
            }
            "6"
        },
        7 => {
            proof {
                reveal_strlit("7");
                assert("7"@ =~= seq![spec_hex_digit(7)]);
            }
            "7"
        },
        8 => {
            proof {
                reveal_strlit("8");
                assert("8"@ =~= seq![spec_hex_digit(8)]);
            }
            "8"
        },
        9 => {
            proof {
                reveal_strlit("9");
                assert("9"@ =~= seq![spec_hex_digit(9)]);
            }
            "9"
        },
        10 => {
            proof {
                reveal_strlit("A");
                assert("A"@ =~= seq![spec_hex_digit(10)]);
            }
            "A"
        },
        11 => {
            proof {
                reveal_strlit("B");
                assert("B"@ =~= seq![spec_hex_digit(11)]);
            }
            "B"
        },
        12 => {
            proof {
                reveal_strlit("C");
                assert("C"@ =~= seq![spec_hex_digit(12)]);
            }
            "C"
        },
        13 => {
            proof {
                reveal_strlit("D");
                assert("D"@ =~= seq![spec_hex_digit(13)]);
            }
            "D"
        },
        14 => {
            proof {
                reveal_strlit("E");
                assert("E"@ =~= seq![spec_hex_digit(14)]);
            }
            "E"
        },
        _ => {
            proof {
                reveal_strlit("F");
                assert("F"@ =~= seq![spec_hex_digit(15)]);
            }
            "F"
        },
    }
}

/// Appends a byte as two hex digits.
fn push_hex2(s: &mut String, v: u8)
    ensures
        final(s)@ == old(s)@ + spec_hex2(v),
{
    s.append(hex_str(v / 16));
    s.append(hex_str(v % 16));
    proof {
        assert(s@ =~= old(s)@ + spec_hex2(v));
    }
}

/// Appends a 16-bit value as four hex digits.
fn push_hex4(s: &mut String, v: u16)
    ensures
        final(s)@ == old(s)@ + spec_hex4(v),
{
    push_hex2(s, (v / 256) as u8);
    push_hex2(s, (v % 256) as u8);
    proof {
        assert(s@ =~= old(s)@ + spec_hex4(v));
    }
}

/// A fixed line of text.
fn lit(l: &str) -> (r: String)
    ensures
        r@ == l@,
{
    String::from_str(l)
}

/// `p`, a 16-bit value in hex, then `s2`.
fn with_word(p: &str, v: u16, s2: &str) -> (r: String)
    ensures
        r@ == p@ + spec_hex4(v) + s2@,
{
    let mut t = String::from_str(p);
    push_hex4(&mut t, v);
    t.append(s2);
    t
}

/// `p`, then a 16-bit value in hex.
fn with_word_end(p: &str, v: u16) -> (r: String)
    ensures
        r@ == p@ + spec_hex4(v),
{
    let mut t = String::from_str(p);
    push_hex4(&mut t, v);
    t
}

/// `p`, a byte in hex, `m`, the same byte again, then `s2`.
fn with_byte(p: &str, n: u8, m: &str, s2: &str) -> (r: String)
    ensures
        r@ == p@ + spec_hex2(n) + m@ + spec_hex2(n) + s2@,
{
    let mut t = String::from_str(p);
    push_hex2(&mut t, n);
    t.append(m);
    push_hex2(&mut t, n);
    t.append(s2);
    t
}

/// `p`, a byte in hex, `m`, then the same byte again.
fn with_byte_end(p: &str, n: u8, m: &str) -> (r: String)
    ensures
        r@ == p@ + spec_hex2(n) + m@ + spec_hex2(n),
{
    let mut t = String::from_str(p);
    push_hex2(&mut t, n);
    t.append(m);
    push_hex2(&mut t, n);
    t
}

/// `p`, the two operand bytes in hex, `m`, the word they form, then `s2`.
fn with_pair(p: &str, lo: u8, hi: u8, m: &str, w: u16, s2: &str) -> (r: String)
    ensures
        r@ == p@ + spec_hex2(lo) + " "@ + spec_hex2(hi) + m@ + spec_hex4(w) + s2@,
{
    let mut t = String::from_str(p);
    push_hex2(&mut t, lo);
    t.append(" ");
    push_hex2(&mut t, hi);
    t.append(m);
    push_hex4(&mut t, w);
    t.append(s2);
    t
}

/// `p`, the two operand bytes in hex, `m`, then the word they form.
fn with_pair_end(p: &str, lo: u8, hi: u8, m: &str, w: u16) -> (r: String)
    ensures
        r@ == p@ + spec_hex2(lo) + " "@ + spec_hex2(hi) + m@ + spec_hex4(w),
{
    let mut t = String::from_str(p);
    push_hex2(&mut t, lo);
    t.append(" ");
    push_hex2(&mut t, hi);
    t.append(m);
    push_hex4(&mut t, w);
    t
}

/// `p`, the displacement byte in hex, `m`, then the jump target.
fn with_jump(p: &str, d: u8, m: &str, target: u16) -> (r: String)
    ensures
        r@ == p@ + spec_hex2(d) + m@ + spec_hex4(target),
{
    let mut t = String::from_str(p);
    push_hex2(&mut t, d);
    t.append(m);
    push_hex4(&mut t, target);
    t
}

/// The LD (HL),n line: the immediate in hex, the live HL address, then
/// the immediate again.
fn ld_hl_imm_text(d: u8, hl: u16) -> (r: String)
    ensures
        r@ == "36 "@ + spec_hex2(d) + "         LD ($"@ + spec_hex4(hl) + "),"@ + spec_hex2(d),
{
    let mut t = String::from_str("36 ");
    push_hex2(&mut t, d);
    t.append("         LD ($");
    push_hex4(&mut t, hl);
    t.append("),");
    push_hex2(&mut t, d);
    t
}

/// The register name a CB-prefixed operation row ends with.
pub open spec fn spec_cb_reg(r: int) -> Seq<char> {
    if r == 0 {
        "B"@
    } else if r == 1 {
        "C"@
    } else if r == 2 {
        "D"@
    } else if r == 3 {
        "E"@
    } else if r == 4 {
        "H"@
    } else if r == 5 {
        "L"@
    } else if r == 6 {
        "(HL)"@
    } else {
        "A"@
    }
}

/// The rotate/shift mnemonic of CB rows below 0x40.
pub open spec fn spec_cb_rot(g: int) -> Seq<char> {
    if g == 0 {
        "RLC"@
    } else if g == 1 {
        "RRC"@
    } else if g == 2 {
        "RL"@
    } else if g == 3 {
        "RR"@
    } else if g == 4 {
        "SLA"@
    } else if g == 5 {
        "SRA"@
    } else if g == 6 {
        "SLL"@
    } else {
        "SRL"@
    }
}

/// The bit-operation mnemonic of CB rows from 0x40 up.
pub open spec fn spec_cb_grp(g: int) -> Seq<char> {
    if g == 1 {
        "BIT"@
    } else if g == 2 {
        "RES"@
    } else {
        "SET"@
    }
}

/// The mnemonic of the CB-prefixed operation `oc`: a rotate or shift of a
/// register below 0x40, and BIT/RES/SET with a bit number from 0x40 up.
pub open spec fn spec_cb_text(oc: u8) -> Seq<char> {
    if oc < 0x40 {
        spec_cb_rot(oc as int / 8) + " "@ + spec_cb_reg(oc as int % 8)
    } else {
        spec_cb_grp(oc as int / 64) + " "@ + seq![spec_hex_digit((oc as int / 8) % 8)] + ","@
            + spec_cb_reg(oc as int % 8)
    }
}

/// The register name of a CB operation row.
fn cb_reg_str(r: u8) -> (s: &'static str)
    requires
        r < 8,
    ensures
        s@ == spec_cb_reg(r as int),
{
    match r {
        0 => "B",
        1 => "C",
        2 => "D",
        3 => "E",
        4 => "H",
        5 => "L",
        6 => "(HL)",
        _ => "A",
    }
}

/// The rotate/shift mnemonic of a CB row below 0x40.
fn cb_rot_str(g: u8) -> (s: &'static str)
    requires
        g < 8,
    ensures
        s@ == spec_cb_rot(g as int),
{
    match g {
        0 => "RLC",
        1 => "RRC",
        2 => "RL",
        3 => "RR",
        4 => "SLA",
        5 => "SRA",
        6 => "SLL",
        _ => "SRL",
    }
}

/// The bit-operation mnemonic of a CB row from 0x40 up.
fn cb_grp_str(g: u8) -> (s: &'static str)
    requires
        1 <= g < 4,
    ensures
        s@ == spec_cb_grp(g as int),
{
    match g {
        1 => "BIT",
        2 => "RES",
        _ => "SET",
    }
}

/// The mnemonic of the CB-prefixed operation `oc`.
pub fn cb_mnemonic(oc: u8) -> (r: String)
    ensures
        r@ == spec_cb_text(oc),
{
    if oc < 0x40 {
        let mut t = String::from_str(cb_rot_str(oc / 8));
        t.append(" ");
        t.append(cb_reg_str(oc % 8));
        t
    } else {
        let mut t = String::from_str(cb_grp_str(oc / 64));
        t.append(" ");
        t.append(hex_str(oc / 8 % 8));
        t.append(",");
        t.append(cb_reg_str(oc % 8));
        t
    }
}

/// The CB-prefix line: both opcode bytes in hex, then the mnemonic from
/// the CB table.
fn cb_prefix_text(oc: u8) -> (r: String)
    ensures
        r@ == "CB"@ + spec_hex2(oc) + "          "@ + spec_cb_text(oc),
{
    let mut t = String::from_str("CB");
    push_hex2(&mut t, oc);
    t.append("          ");
    let m = cb_mnemonic(oc);
    t.append(m.as_str());
    t
}

/// The disassembly text of opcodes 0x00..=0x1F.
pub open spec fn spec_dasm_00_1f(v: CpuView, address: u16) -> Seq<char> {
    let op = bus_byte(v.bus, address);
    let n1 = bus_byte(v.bus, wrap16(address + 1));
    let n2 = bus_byte(v.bus, wrap16(address + 2));
    let w = spec_pair(n2, n1);
    let hl = spec_pair(v.reg.h, v.reg.l);
    let bc = spec_pair(v.reg.b, v.reg.c);
    let de = spec_pair(v.reg.d, v.reg.e);
    if op == 0x00 {
        "00            NOP"@
    } else if op == 0x01 {
        "01 "@ + spec_hex2(n1) + " "@ + spec_hex2(n2) + "      LD BC,$"@ + spec_hex4(w)
    } else if op == 0x02 {
        "02            LD ($"@ + spec_hex4(bc) + "),A"@
    } else if op == 0x03 {
        "03            INC BC"@
    } else if op == 0x04 {
        "04            INC B"@
    } else if op == 0x05 {
        "05            DEC B"@
    } else if op == 0x06 {
        "06 "@ + spec_hex2(n1) + "         LD B,$"@ + spec_hex2(n1)
    } else if op == 0x07 {
        "07            RLCA"@
    } else if op == 0x08 {
        "08            EX AF,AF'"@
    } else if op == 0x09 {
        "09            ADD HL,BC"@
    } else if op == 0x0A {
        "0A            LD A,($"@ + spec_hex4(bc) + ")"@
    } else if op == 0x0B {
        "0B            DEC BC"@
    } else if op == 0x0C {
        "0C            INC C"@
    } else if op == 0x0D {
        "0D            DEC C"@
    } else if op == 0x0E {
        "0E "@ + spec_hex2(n1) + "         LD C,$"@ + spec_hex2(n1)
    } else if op == 0x0F {
        "0F            RRCA"@
    } else if op == 0x10 {
        "10 "@ + spec_hex2(n1) + "         DJNZ $"@ + spec_hex4(spec_jr_target(address, n1))
    } else if op == 0x11 {
        "11 "@ + spec_hex2(n1) + " "@ + spec_hex2(n2) + "      LD DE,$"@ + spec_hex4(w)
    } else if op == 0x12 {
        "12            LD ($"@ + spec_hex4(de) + "),A"@
    } else if op == 0x13 {
        "13            INC DE"@
    } else if op == 0x14 {
        "14            INC D"@
    } else if op == 0x15 {
        "15            DEC D"@
    } else if op == 0x16 {
        "16 "@ + spec_hex2(n1) + "         LD D,$"@ + spec_hex2(n1)
    } else if op == 0x17 {
        "17            RLA"@
    } else if op == 0x18 {
        "18 "@ + spec_hex2(n1) + "         JR $"@ + spec_hex4(spec_jr_target(address, n1))
    } else if op == 0x19 {
        "19            ADD HL,DE"@
    } else if op == 0x1A {
        "1A            LD A,($"@ + spec_hex4(de) + ")"@
    } else if op == 0x1B {
        "1B            DEC DE"@
    } else if op == 0x1C {
        "1C            INC E"@
    } else if op == 0x1D {
        "1D            DEC E"@
    } else if op == 0x1E {
        "1E "@ + spec_hex2(n1) + "         LD E,$"@ + spec_hex2(n1)
    } else if op == 0x1F {
        "1F            RRA"@
    } else {
        Seq::<char>::empty()
    }
}

/// The disassembly text of opcodes 0x20..=0x3F.
pub open spec fn spec_dasm_20_3f(v: CpuView, address: u16) -> Seq<char> {
    let op = bus_byte(v.bus, address);
    let n1 = bus_byte(v.bus, wrap16(address + 1));
    let n2 = bus_byte(v.bus, wrap16(address + 2));
    let w = spec_pair(n2, n1);
    let hl = spec_pair(v.reg.h, v.reg.l);
    let bc = spec_pair(v.reg.b, v.reg.c);
    let de = spec_pair(v.reg.d, v.reg.e);
    if op == 0x20 {
        "20 "@ + spec_hex2(n1) + "         JR NZ,$"@ + spec_hex4(spec_jr_target(address, n1))
    } else if op == 0x21 {
        "21 "@ + spec_hex2(n1) + " "@ + spec_hex2(n2) + "      LD HL,$"@ + spec_hex4(w)
    } else if op == 0x22 {
        "22 "@ + spec_hex2(n1) + " "@ + spec_hex2(n2) + "      LD ($"@ + spec_hex4(w) + "),HL"@
    } else if op == 0x23 {
        "23            INC HL"@
    } else if op == 0x24 {
        "24            INC H"@
    } else if op == 0x25 {
        "25            DEC H"@
    } else if op == 0x26 {
        "26 "@ + spec_hex2(n1) + "         LD H,$"@ + spec_hex2(n1)
    } else if op == 0x27 {
        "27            DAA"@
    } else if op == 0x28 {
        "28 "@ + spec_hex2(n1) + "         JR Z,$"@ + spec_hex4(spec_jr_target(address, n1))
    } else if op == 0x29 {
        "29            ADD HL,HL"@
    } else if op == 0x2A {
        "2A "@ + spec_hex2(n1) + " "@ + spec_hex2(n2) + "      LD HL,($"@ + spec_hex4(w) + ")"@
    } else if op == 0x2B {
        "2B            DEC HL"@
    } else if op == 0x2C {
        "2C            INC L"@
    } else if op == 0x2D {
        "2D            DEC L"@
    } else if op == 0x2E {
        "2E "@ + spec_hex2(n1) + "         LD L,$"@ + spec_hex2(n1)
    } else if op == 0x2F {
        "2F            CPL"@
    } else if op == 0x30 {
        "30 "@ + spec_hex2(n1) + "         JR NC,$"@ + spec_hex4(spec_jr_target(address, n1))
    } else if op == 0x31 {
        "31 "@ + spec_hex2(n1) + " "@ + spec_hex2(n2) + "      LD SP,$"@ + spec_hex4(w)
    } else if op == 0x32 {
        "32            LD ($"@ + spec_hex4(w) + "),A"@
    } else if op == 0x33 {
        "33            INC SP"@
    } else if op == 0x34 {
        "34            INC ($"@ + spec_hex4(hl) + ")"@
    } else if op == 0x35 {
        "35            DEC ($"@ + spec_hex4(hl) + ")"@
    } else if op == 0x36 {
        "36 "@ + spec_hex2(n1) + "         LD ($"@ + spec_hex4(hl) + "),"@ + spec_hex2(n1)
    } else if op == 0x37 {
        "37            SCF"@
    } else if op == 0x38 {
        "38 "@ + spec_hex2(n1) + "         JR C,$"@ + spec_hex4(spec_jr_target(address, n1))
    } else if op == 0x39 {
        "39            ADD HL,SP"@
    } else if op == 0x3A {
        "3A "@ + spec_hex2(n1) + " "@ + spec_hex2(n2) + "      LD A,($"@ + spec_hex4(w) + ")"@
    } else if op == 0x3B {
        "3B            DEC SP"@
    } else if op == 0x3C {
        "3C            INC A"@
    } else if op == 0x3D {
        "3D            DEC A"@
    } else if op == 0x3E {
        "3E "@ + spec_hex2(n1) + "         LD A,$"@ + spec_hex2(n1)
    } else if op == 0x3F {
        "3F            CCF"@
    } else {
        Seq::<char>::empty()
    }
}

/// The disassembly text of opcodes 0x40..=0x5F.
pub open spec fn spec_dasm_40_5f(v: CpuView, address: u16) -> Seq<char> {
    let op = bus_byte(v.bus, address);
    let n1 = bus_byte(v.bus, wrap16(address + 1));
    let n2 = bus_byte(v.bus, wrap16(address + 2));
    let w = spec_pair(n2, n1);
    let hl = spec_pair(v.reg.h, v.reg.l);
    let bc = spec_pair(v.reg.b, v.reg.c);
    let de = spec_pair(v.reg.d, v.reg.e);
    if op == 0x40 {
        "40            LD B,B"@
    } else if op == 0x41 {
        "41            LD B,C"@
    } else if op == 0x42 {
        "42            LD B,D"@
    } else if op == 0x43 {
        "43            LD B,E"@
    } else if op == 0x44 {
        "44            LD B,H"@
    } else if op == 0x45 {
        "45            LD B,L"@
    } else if op == 0x46 {
        "46         LD B,($"@ + spec_hex4(hl) + ")"@
    } else if op == 0x47 {
        "47            LD B,A"@
    } else if op == 0x48 {
        "48            LD C,B"@
    } else if op == 0x49 {
        "49            LD C,C"@
    } else if op == 0x4A {
        "4A            LD C,D"@
    } else if op == 0x4B {
        "4B            LD C,E"@
    } else if op == 0x4C {
        "4C            LD C,H"@
    } else if op == 0x4D {
        "4D            LD C,L"@
    } else if op == 0x4E {
        "4E            LD C,($"@ + spec_hex4(hl) + ")"@
    } else if op == 0x4F {
        "4F            LD C,A"@
    } else if op == 0x50 {
        "50            LD D,B"@
    } else if op == 0x51 {
        "51            LD D,C"@
    } else if op == 0x52 {
        "52            LD D,D"@
    } else if op == 0x53 {
        "53            LD D,E"@
    } else if op == 0x54 {
        "54            LD D,H"@
    } else if op == 0x55 {
        "55            LD D,L"@
    } else if op == 0x56 {
        "4E            LD D,($"@ + spec_hex4(hl) + ")"@
    } else if op == 0x57 {
        "57            LD D,A"@
    } else if op == 0x58 {
        "58            LD E,B"@
    } else if op == 0x59 {
        "59            LD E,C"@
    } else if op == 0x5A {
        "5A            LD E,D"@
    } else if op == 0x5B {
        "5B            LD E,E"@
    } else if op == 0x5C {
        "5C            LD E,H"@
    } else if op == 0x5D {
        "5D            LD E,L"@
    } else if op == 0x5E {
        "5E            LD E,($"@ + spec_hex4(hl) + ")"@
    } else if op == 0x5F {
        "5F            LD E,A"@
    } else {
        Seq::<char>::empty()
    }
}

/// The disassembly text of opcodes 0x60..=0x7F.
pub open spec fn spec_dasm_60_7f(v: CpuView, address: u16) -> Seq<char> {
    let op = bus_byte(v.bus, address);
    let n1 = bus_byte(v.bus, wrap16(address + 1));
    let n2 = bus_byte(v.bus, wrap16(address + 2));
    let w = spec_pair(n2, n1);
    let hl = spec_pair(v.reg.h, v.reg.l);
    let bc = spec_pair(v.reg.b, v.reg.c);
    let de = spec_pair(v.reg.d, v.reg.e);
    if op == 0x60 {
        "60            LD H,B"@
    } else if op == 0x61 {
        "61            LD H,C"@
    } else if op == 0x62 {
        "62            LD H,D"@
    } else if op == 0x63 {
        "63            LD H,E"@
    } else if op == 0x64 {
        "64            LD H,H"@
    } else if op == 0x65 {
        "65            LD H,L"@
    } else if op == 0x66 {
        "66            LD H,($"@ + spec_hex4(hl) + ")"@
    } else if op == 0x67 {
        "67            LD H,A"@
    } else if op == 0x68 {
        "68            LD L,B"@
    } else if op == 0x69 {
        "69            LD L,C"@
    } else if op == 0x6A {
        "6A            LD L,D"@
    } else if op == 0x6B {
        "6B            LD L,E"@
    } else if op == 0x6C {
        "6C            LD L,H"@
    } else if op == 0x6D {
        "6D            LD L,L"@
    } else if op == 0x6E {
        "6E            LD L,($"@ + spec_hex4(hl) + ")"@
    } else if op == 0x6F {
        "6F            LD L,A"@
    } else if op == 0x70 {
        "70            LD ($"@ + spec_hex4(hl) + "),B"@
    } else if op == 0x71 {
        "71            LD ($"@ + spec_hex4(hl) + "),C"@
    } else if op == 0x72 {
        "72            LD ($"@ + spec_hex4(hl) + "),D"@
    } else if op == 0x73 {
        "73            LD ($"@ + spec_hex4(hl) + "),E"@
    } else if op == 0x74 {
        "74            LD ($"@ + spec_hex4(hl) + "),H"@
    } else if op == 0x75 {
        "75            LD ($"@ + spec_hex4(hl) + "),L"@
    } else if op == 0x76 {
        "76            HALT"@
    } else if op == 0x77 {
        "77            LD ($"@ + spec_hex4(hl) + "),A"@
    } else if op == 0x78 {
        "78            LD A,B"@
    } else if op == 0x79 {
        "79            LD A,C"@
    } else if op == 0x7A {
        "7A            LD A,D"@
    } else if op == 0x7B {
        "7B            LD A,E"@
    } else if op == 0x7C {
        "7C            LD A,H"@
    } else if op == 0x7D {
        "7D            LD A,L"@
    } else if op == 0x7E {
        "7E            LD A,($"@ + spec_hex4(hl) + ")"@
    } else if op == 0x7F {
        "7F            LD A,A"@
    } else {
        Seq::<char>::empty()
    }
}

/// The disassembly text of opcodes 0x80..=0x9F.
pub open spec fn spec_dasm_80_9f(v: CpuView, address: u16) -> Seq<char> {
    let op = bus_byte(v.bus, address);
    let n1 = bus_byte(v.bus, wrap16(address + 1));
    let n2 = bus_byte(v.bus, wrap16(address + 2));
    let w = spec_pair(n2, n1);
    let hl = spec_pair(v.reg.h, v.reg.l);
    let bc = spec_pair(v.reg.b, v.reg.c);
    let de = spec_pair(v.reg.d, v.reg.e);
    if op == 0x80 {
        "80            ADD A,B"@
    } else if op == 0x81 {
        "81            ADD A,C"@
    } else if op == 0x82 {
        "82            ADD A,D"@
    } else if op == 0x83 {
        "83            ADD A,E"@
    } else if op == 0x84 {
        "84            ADD A,H"@
    } else if op == 0x85 {
        "85            ADD A,L"@
    } else if op == 0x86 {
        "86            ADD A,($"@ + spec_hex4(hl) + ")"@
    } else if op == 0x87 {
        "87            ADD A,A"@
    } else if op == 0x88 {
        "88            ADC A,B"@
    } else if op == 0x89 {
        "89            ADC A,C"@
    } else if op == 0x8A {
        "8A            ADC A,D"@
    } else if op == 0x8B {
        "8B            ADC A,E"@
    } else if op == 0x8C {
        "8C            ADC A,H"@
    } else if op == 0x8D {
        "8D            ADC A,L"@
    } else if op == 0x8E {
        "8E        ADC A,($"@ + spec_hex4(hl) + ")"@
    } else if op == 0x8F {
        "8F            ADC A,A"@
    } else if op == 0x90 {
        "90            SUB A,B"@
    } else if op == 0x91 {
        "91            SUB A,C"@
    } else if op == 0x92 {
        "92            SUB A,D"@
    } else if op == 0x93 {
        "93            SUB A,E"@
    } else if op == 0x94 {
        "94            SUB A,H"@
    } else if op == 0x95 {
        "95            SUB A,L"@
    } else if op == 0x96 {
        "96            SUB A,($"@ + spec_hex4(hl) + ")"@
    } else if op == 0x97 {
        "97            SUB A,A"@
    } else if op == 0x98 {
        "98            SBC A,B"@
    } else if op == 0x99 {
        "99            SBC A,C"@
    } else if op == 0x9A {
        "9A            SBC A,D"@
    } else if op == 0x9B {
        "9B            SBC A,E"@
    } else if op == 0x9C {
        "9C            SBC A,H"@
    } else if op == 0x9D {
        "9D            SBC A,L"@
    } else if op == 0x9E {
        "9E            SBC A,($"@ + spec_hex4(hl) + ")"@
    } else if op == 0x9F {
        "9F            SBC A,A"@
    } else {
        Seq::<char>::empty()
    }
}

/// The disassembly text of opcodes 0xA0..=0xBF.
pub open spec fn spec_dasm_a0_bf(v: CpuView, address: u16) -> Seq<char> {
    let op = bus_byte(v.bus, address);
    let n1 = bus_byte(v.bus, wrap16(address + 1));
    let n2 = bus_byte(v.bus, wrap16(address + 2));
    let w = spec_pair(n2, n1);
    let hl = spec_pair(v.reg.h, v.reg.l);
    let bc = spec_pair(v.reg.b, v.reg.c);
    let de = spec_pair(v.reg.d, v.reg.e);
    if op == 0xA0 {
        "A0            AND B"@
    } else if op == 0xA1 {
        "A1            AND C"@
    } else if op == 0xA2 {
        "A2            AND D"@
    } else if op == 0xA3 {
        "A3            AND E"@
    } else if op == 0xA4 {
        "A4            AND H"@
    } else if op == 0xA5 {
        "A5            AND L"@
    } else if op == 0xA6 {
        "A6            AND ($"@ + spec_hex4(hl) + ")"@
    } else if op == 0xA7 {
        "A7            AND L"@
    } else if op == 0xA8 {
        "A8            XOR B"@
    } else if op == 0xA9 {
        "A9            XOR C"@
    } else if op == 0xAA {
        "AA            XOR D"@
    } else if op == 0xAB {
        "AB            XOR E"@
    } else if op == 0xAC {
        "AC            XOR H"@
    } else if op == 0xAD {
        "AD            XOR L"@
    } else if op == 0xAE {
        "AE            XOR ($"@ + spec_hex4(hl) + ")"@
    } else if op == 0xAF {
        "AF            XOR A"@
    } else if op == 0xB0 {
        "B0            OR B"@
    } else if op == 0xB1 {
        "B1            OR C"@
    } else if op == 0xB2 {
        "B2            OR D"@
    } else if op == 0xB3 {
        "B3            OR E"@
    } else if op == 0xB4 {
        "B4            OR H"@
    } else if op == 0xB5 {
        "B5            OR L"@
    } else if op == 0xB6 {
        "B6            OR ($"@ + spec_hex4(hl) + ")"@
    } else if op == 0xB7 {
        "B7            OR A"@
    } else if op == 0xB8 {
        "B8            CP B"@
    } else if op == 0xB9 {
        "B9            CP C"@
    } else if op == 0xBA {
        "BA            CP D"@
    } else if op == 0xBB {
        "BB            CP E"@
    } else if op == 0xBC {
        "BC            CP H"@
    } else if op == 0xBD {
        "BD            CP L"@
    } else if op == 0xBE {
        "BE            CP ($"@ + spec_hex4(hl) + ")"@
    } else if op == 0xBF {
        "BF            CP A"@
    } else {
        Seq::<char>::empty()
    }
}

/// The disassembly text of opcodes 0xC0..=0xDF.
pub open spec fn spec_dasm_c0_df(v: CpuView, address: u16) -> Seq<char> {
    let op = bus_byte(v.bus, address);
    let n1 = bus_byte(v.bus, wrap16(address + 1));
    let n2 = bus_byte(v.bus, wrap16(address + 2));
    let w = spec_pair(n2, n1);
    let hl = spec_pair(v.reg.h, v.reg.l);
    let bc = spec_pair(v.reg.b, v.reg.c);
    let de = spec_pair(v.reg.d, v.reg.e);
    if op == 0xC0 {
        "C0            RET NZ"@
    } else if op == 0xC1 {
        "C1            POP BC"@
    } else if op == 0xC2 {
        "C2 "@ + spec_hex2(n1) + " "@ + spec_hex2(n2) + "      JP NZ,$"@ + spec_hex4(w)
    } else if op == 0xC3 {
        "C3 "@ + spec_hex2(n1) + " "@ + spec_hex2(n2) + "      JP $"@ + spec_hex4(w)
    } else if op == 0xC4 {
        "C4 "@ + spec_hex2(n1) + " "@ + spec_hex2(n2) + "      CALL NZ,$"@ + spec_hex4(w)
    } else if op == 0xC5 {
        "C5            PUSH BC"@
    } else if op == 0xC6 {
        "C6 "@ + spec_hex2(n1) + "         ADD A,$"@ + spec_hex2(n1)
    } else if op == 0xC7 {
        "C7            RST 0"@
    } else if op == 0xC8 {
        "C8            RET Z"@
    } else if op == 0xC9 {
        "C9            RET"@
    } else if op == 0xCA {
        "CA "@ + spec_hex2(n1) + " "@ + spec_hex2(n2) + "      JP Z,$"@ + spec_hex4(w)
    } else if op == 0xCB {
        "CB"@ + spec_hex2(n1) + "          "@ + spec_cb_text(n1)
    } else if op == 0xCC {
        "CC "@ + spec_hex2(n1) + " "@ + spec_hex2(n2) + "      CALL Z,$"@ + spec_hex4(w)
    } else if op == 0xCD {
        "CD "@ + spec_hex2(n1) + " "@ + spec_hex2(n2) + "      CALL $"@ + spec_hex4(w)
    } else if op == 0xCE {
        "CE "@ + spec_hex2(n1) + "         ADC A,$"@ + spec_hex2(n1)
    } else if op == 0xCF {
        "CF            RST 08"@
    } else if op == 0xD0 {
        "D0            RET NC"@
    } else if op == 0xD1 {
        "D1            POP DE"@
    } else if op == 0xD2 {
        "D2 "@ + spec_hex2(n1) + " "@ + spec_hex2(n2) + "      JP NC,$"@ + spec_hex4(w)
    } else if op == 0xD3 {
        "D3 "@ + spec_hex2(n1) + "         OUT A,($"@ + spec_hex2(n1) + ")"@
    } else if op == 0xD4 {
        "D4 "@ + spec_hex2(n1) + " "@ + spec_hex2(n2) + "      CALL NC,$"@ + spec_hex4(w)
    } else if op == 0xD5 {
        "D5            PUSH DE"@
    } else if op == 0xD6 {
        "D6 "@ + spec_hex2(n1) + "         SUB A,$"@ + spec_hex2(n1)
    } else if op == 0xD7 {
        "D7            RST 10"@
    } else if op == 0xD8 {
        "D8            RET C"@
    } else if op == 0xD9 {
        "D9            EXX"@
    } else if op == 0xDA {
        "DA "@ + spec_hex2(n1) + " "@ + spec_hex2(n2) + "      JP C,$"@ + spec_hex4(w)
    } else if op == 0xDB {
        "DB "@ + spec_hex2(n1) + "         IN A,($"@ + spec_hex2(n1) + ")"@
    } else if op == 0xDC {
        "DC "@ + spec_hex2(n1) + " "@ + spec_hex2(n2) + "      CALL C,$"@ + spec_hex4(w)
    } else if op == 0xDD {
        Seq::<char>::empty()
    } else if op == 0xDE {
        "DE "@ + spec_hex2(n1) + "         SBC A,$"@ + spec_hex2(n1)
    } else if op == 0xDF {
        "DF            RST 18"@
    } else {
        Seq::<char>::empty()
    }
}

/// The disassembly text of opcodes 0xE0..=0xFF.
pub open spec fn spec_dasm_e0_ff(v: CpuView, address: u16) -> Seq<char> {
    let op = bus_byte(v.bus, address);
    let n1 = bus_byte(v.bus, wrap16(address + 1));
    let n2 = bus_byte(v.bus, wrap16(address + 2));
    let w = spec_pair(n2, n1);
    let hl = spec_pair(v.reg.h, v.reg.l);
    let bc = spec_pair(v.reg.b, v.reg.c);
    let de = spec_pair(v.reg.d, v.reg.e);
    if op == 0xE0 {
        "E0            RET PO"@
    } else if op == 0xE1 {
        "E1            POP HL"@
    } else if op == 0xE2 {
        "E2 "@ + spec_hex2(n1) + " "@ + spec_hex2(n2) + "      JP PO,$"@ + spec_hex4(w)
    } else if op == 0xE3 {
        "E3            EX (SP),HL"@
    } else if op == 0xE4 {
        "E4 "@ + spec_hex2(n1) + " "@ + spec_hex2(n2) + "      CALL PO,$"@ + spec_hex4(w)
    } else if op == 0xE5 {
        "E5            PUSH HL"@
    } else if op == 0xE6 {
        "E6 "@ + spec_hex2(n1) + "         AND $"@ + spec_hex2(n1)
    } else if op == 0xE7 {
        "E7            RST 20"@
    } else if op == 0xE8 {
        "E8            RET PE"@
    } else if op == 0xE9 {
        "E9            JP $"@ + spec_hex4(hl)
    } else if op == 0xEA {
        "EA "@ + spec_hex2(n1) + " "@ + spec_hex2(n2) + "      JP PE,$"@ + spec_hex4(w)
    } else if op == 0xEB {
        "EB            EX DE,HL"@
    } else if op == 0xEC {
        "EC "@ + spec_hex2(n1) + " "@ + spec_hex2(n2) + "      CALL PE,$"@ + spec_hex4(w)
    } else if op == 0xED {
        Seq::<char>::empty()
    } else if op == 0xEE {
        "EE "@ + spec_hex2(n1) + "         XOR $"@ + spec_hex2(n1)
    } else if op == 0xEF {
        "EF            RST 28"@
    } else if op == 0xF0 {
        "F0            RET P"@
    } else if op == 0xF1 {
        "F1            POP AF"@
    } else if op == 0xF2 {
        "F2 "@ + spec_hex2(n1) + " "@ + spec_hex2(n2) + "      JP P,$"@ + spec_hex4(w)
    } else if op == 0xF3 {
        "F3            DI"@
    } else if op == 0xF4 {
        "F4 "@ + spec_hex2(n1) + " "@ + spec_hex2(n2) + "      CALL P,$"@ + spec_hex4(w)
    } else if op == 0xF5 {
        "F5            PUSH AF"@
    } else if op == 0xF6 {
        "F6 "@ + spec_hex2(n1) + "         OR $"@ + spec_hex2(n1)
    } else if op == 0xF7 {
        "F7            RST 30"@
    } else if op == 0xF8 {
        "F8            RET M"@
    } else if op == 0xF9 {
        "F9            LD SP,HL"@
    } else if op == 0xFA {
        "FA "@ + spec_hex2(n1) + " "@ + spec_hex2(n2) + "      JP M,$"@ + spec_hex4(w)
    } else if op == 0xFB {
        "FB            EI"@
    } else if op == 0xFC {
        "FC "@ + spec_hex2(n1) + " "@ + spec_hex2(n2) + "      CALL M,$"@ + spec_hex4(w)
    } else if op == 0xFD {
        Seq::<char>::empty()
    } else if op == 0xFE {
        "FE "@ + spec_hex2(n1) + "         CP $"@ + spec_hex2(n1)
    } else if op == 0xFF {
        "FF            RST 38"@
    } else {
        Seq::<char>::empty()
    }
}

/// The text `dasm` renders for the instruction at `address`: the operand
/// bytes and mnemonic of the opcode found there, or the empty string for
/// an opcode the table does not carry.
pub open spec fn spec_dasm_text(v: CpuView, address: u16) -> Seq<char> {
    let op = bus_byte(v.bus, address);
    if op <= 0x1F {
        spec_dasm_00_1f(v, address)
    } else if op <= 0x3F {
        spec_dasm_20_3f(v, address)
    } else if op <= 0x5F {
        spec_dasm_40_5f(v, address)
    } else if op <= 0x7F {
        spec_dasm_60_7f(v, address)
    } else if op <= 0x9F {
        spec_dasm_80_9f(v, address)
    } else if op <= 0xBF {
        spec_dasm_a0_bf(v, address)
    } else if op <= 0xDF {
        spec_dasm_c0_df(v, address)
    } else {
        spec_dasm_e0_ff(v, address)
    }
}

impl CPU {
    /// Renders opcodes 0x00..=0x1F.
    fn dasm_00_1f(&self, address: u16, op: u8, n1: u8, n2: u8) -> (r: String)
        requires
            op == bus_byte(self@.bus, address),
            n1 == bus_byte(self@.bus, wrap16(address + 1)),
            n2 == bus_byte(self@.bus, wrap16(address + 2)),
            0x00 <= op <= 0x1F,
        ensures
            r@ == spec_dasm_00_1f(self@, address),
    {
        let w: u16 = (n2 as u16) << 8 | n1 as u16;
        match op {
            0x00 => lit("00            NOP"),
            0x01 => with_pair_end("01 ", n1, n2, "      LD BC,$", w),
            0x02 => with_word("02            LD ($", self.reg.get_bc(), "),A"),
            0x03 => lit("03            INC BC"),
            0x04 => lit("04            INC B"),
            0x05 => lit("05            DEC B"),
            0x06 => with_byte_end("06 ", n1, "         LD B,$"),
            0x07 => lit("07            RLCA"),
            0x08 => lit("08            EX AF,AF'"),
            0x09 => lit("09            ADD HL,BC"),
            0x0A => with_word("0A            LD A,($", self.reg.get_bc(), ")"),
            0x0B => lit("0B            DEC BC"),
            0x0C => lit("0C            INC C"),
            0x0D => lit("0D            DEC C"),
            0x0E => with_byte_end("0E ", n1, "         LD C,$"),
            0x0F => lit("0F            RRCA"),
            0x10 => with_jump("10 ", n1, "         DJNZ $", jump_target(address, n1)),
            0x11 => with_pair_end("11 ", n1, n2, "      LD DE,$", w),
            0x12 => with_word("12            LD ($", self.reg.get_de(), "),A"),
            0x13 => lit("13            INC DE"),
            0x14 => lit("14            INC D"),
            0x15 => lit("15            DEC D"),
            0x16 => with_byte_end("16 ", n1, "         LD D,$"),
            0x17 => lit("17            RLA"),
            0x18 => with_jump("18 ", n1, "         JR $", jump_target(address, n1)),
            0x19 => lit("19            ADD HL,DE"),
            0x1A => with_word("1A            LD A,($", self.reg.get_de(), ")"),
            0x1B => lit("1B            DEC DE"),
            0x1C => lit("1C            INC E"),
            0x1D => lit("1D            DEC E"),
            0x1E => with_byte_end("1E ", n1, "         LD E,$"),
            0x1F => lit("1F            RRA"),
            _ => String::new(),
        }
    }

    /// Renders opcodes 0x20..=0x3F.
    fn dasm_20_3f(&self, address: u16, op: u8, n1: u8, n2: u8) -> (r: String)
        requires
            op == bus_byte(self@.bus, address),
            n1 == bus_byte(self@.bus, wrap16(address + 1)),
            n2 == bus_byte(self@.bus, wrap16(address + 2)),
            0x20 <= op <= 0x3F,
        ensures
            r@ == spec_dasm_20_3f(self@, address),
    {
        let w: u16 = (n2 as u16) << 8 | n1 as u16;
        match op {
            0x20 => with_jump("20 ", n1, "         JR NZ,$", jump_target(address, n1)),
            0x21 => with_pair_end("21 ", n1, n2, "      LD HL,$", w),
            0x22 => with_pair("22 ", n1, n2, "      LD ($", w, "),HL"),
            0x23 => lit("23            INC HL"),
            0x24 => lit("24            INC H"),
            0x25 => lit("25            DEC H"),
            0x26 => with_byte_end("26 ", n1, "         LD H,$"),
            0x27 => lit("27            DAA"),
            0x28 => with_jump("28 ", n1, "         JR Z,$", jump_target(address, n1)),
            0x29 => lit("29            ADD HL,HL"),
            0x2A => with_pair("2A ", n1, n2, "      LD HL,($", w, ")"),
            0x2B => lit("2B            DEC HL"),
            0x2C => lit("2C            INC L"),
            0x2D => lit("2D            DEC L"),
            0x2E => with_byte_end("2E ", n1, "         LD L,$"),
            0x2F => lit("2F            CPL"),
            0x30 => with_jump("30 ", n1, "         JR NC,$", jump_target(address, n1)),
            0x31 => with_pair_end("31 ", n1, n2, "      LD SP,$", w),
            0x32 => with_word("32            LD ($", w, "),A"),
            0x33 => lit("33            INC SP"),
            0x34 => with_word("34            INC ($", self.reg.get_hl(), ")"),
            0x35 => with_word("35            DEC ($", self.reg.get_hl(), ")"),
            0x36 => ld_hl_imm_text(n1, self.reg.get_hl()),
            0x37 => lit("37            SCF"),
            0x38 => with_jump("38 ", n1, "         JR C,$", jump_target(address, n1)),
            0x39 => lit("39            ADD HL,SP"),
            0x3A => with_pair("3A ", n1, n2, "      LD A,($", w, ")"),
            0x3B => lit("3B            DEC SP"),
            0x3C => lit("3C            INC A"),
            0x3D => lit("3D            DEC A"),
            0x3E => with_byte_end("3E ", n1, "         LD A,$"),
            0x3F => lit("3F            CCF"),
            _ => String::new(),
        }
    }

    /// Renders opcodes 0x40..=0x5F.
    fn dasm_40_5f(&self, address: u16, op: u8, n1: u8, n2: u8) -> (r: String)
        requires
            op == bus_byte(self@.bus, address),
            n1 == bus_byte(self@.bus, wrap16(address + 1)),
            n2 == bus_byte(self@.bus, wrap16(address + 2)),
            0x40 <= op <= 0x5F,
        ensures
            r@ == spec_dasm_40_5f(self@, address),
    {
        match op {
            0x40 => lit("40            LD B,B"),
            0x41 => lit("41            LD B,C"),
            0x42 => lit("42            LD B,D"),
            0x43 => lit("43            LD B,E"),
            0x44 => lit("44            LD B,H"),
            0x45 => lit("45            LD B,L"),
            0x46 => with_word("46         LD B,($", self.reg.get_hl(), ")"),
            0x47 => lit("47            LD B,A"),
            0x48 => lit("48            LD C,B"),
            0x49 => lit("49            LD C,C"),
            0x4A => lit("4A            LD C,D"),
            0x4B => lit("4B            LD C,E"),
            0x4C => lit("4C            LD C,H"),
            0x4D => lit("4D            LD C,L"),
            0x4E => with_word("4E            LD C,($", self.reg.get_hl(), ")"),
            0x4F => lit("4F            LD C,A"),
            0x50 => lit("50            LD D,B"),
            0x51 => lit("51            LD D,C"),
            0x52 => lit("52            LD D,D"),
            0x53 => lit("53            LD D,E"),
            0x54 => lit("54            LD D,H"),
            0x55 => lit("55            LD D,L"),
            0x56 => with_word("4E            LD D,($", self.reg.get_hl(), ")"),
            0x57 => lit("57            LD D,A"),
            0x58 => lit("58            LD E,B"),
            0x59 => lit("59            LD E,C"),
            0x5A => lit("5A            LD E,D"),
            0x5B => lit("5B            LD E,E"),
            0x5C => lit("5C            LD E,H"),
            0x5D => lit("5D            LD E,L"),
            0x5E => with_word("5E            LD E,($", self.reg.get_hl(), ")"),
            0x5F => lit("5F            LD E,A"),
            _ => String::new(),
        }
    }

    /// Renders opcodes 0x60..=0x7F.
    fn dasm_60_7f(&self, address: u16, op: u8, n1: u8, n2: u8) -> (r: String)
        requires
            op == bus_byte(self@.bus, address),
            n1 == bus_byte(self@.bus, wrap16(address + 1)),
            n2 == bus_byte(self@.bus, wrap16(address + 2)),
            0x60 <= op <= 0x7F,
        ensures
            r@ == spec_dasm_60_7f(self@, address),
    {
        match op {
            0x60 => lit("60            LD H,B"),
            0x61 => lit("61            LD H,C"),
            0x62 => lit("62            LD H,D"),
            0x63 => lit("63            LD H,E"),
            0x64 => lit("64            LD H,H"),
            0x65 => lit("65            LD H,L"),
            0x66 => with_word("66            LD H,($", self.reg.get_hl(), ")"),
            0x67 => lit("67            LD H,A"),
            0x68 => lit("68            LD L,B"),
            0x69 => lit("69            LD L,C"),
            0x6A => lit("6A            LD L,D"),
            0x6B => lit("6B            LD L,E"),
            0x6C => lit("6C            LD L,H"),
            0x6D => lit("6D            LD L,L"),
            0x6E => with_word("6E            LD L,($", self.reg.get_hl(), ")"),
            0x6F => lit("6F            LD L,A"),
            0x70 => with_word("70            LD ($", self.reg.get_hl(), "),B"),
            0x71 => with_word("71            LD ($", self.reg.get_hl(), "),C"),
            0x72 => with_word("72            LD ($", self.reg.get_hl(), "),D"),
            0x73 => with_word("73            LD ($", self.reg.get_hl(), "),E"),
            0x74 => with_word("74            LD ($", self.reg.get_hl(), "),H"),
            0x75 => with_word("75            LD ($", self.reg.get_hl(), "),L"),
            0x76 => lit("76            HALT"),
            0x77 => with_word("77            LD ($", self.reg.get_hl(), "),A"),
            0x78 => lit("78            LD A,B"),
            0x79 => lit("79            LD A,C"),
            0x7A => lit("7A            LD A,D"),
            0x7B => lit("7B            LD A,E"),
            0x7C => lit("7C            LD A,H"),
            0x7D => lit("7D            LD A,L"),
            0x7E => with_word("7E            LD A,($", self.reg.get_hl(), ")"),
            0x7F => lit("7F            LD A,A"),
            _ => String::new(),
        }
    }

    /// Renders opcodes 0x80..=0x9F.
    fn dasm_80_9f(&self, address: u16, op: u8, n1: u8, n2: u8) -> (r: String)
        requires
            op == bus_byte(self@.bus, address),
            n1 == bus_byte(self@.bus, wrap16(address + 1)),
            n2 == bus_byte(self@.bus, wrap16(address + 2)),
            0x80 <= op <= 0x9F,
        ensures
            r@ == spec_dasm_80_9f(self@, address),
    {
        match op {
            0x80 => lit("80            ADD A,B"),
            0x81 => lit("81            ADD A,C"),
            0x82 => lit("82            ADD A,D"),
            0x83 => lit("83            ADD A,E"),
            0x84 => lit("84            ADD A,H"),
            0x85 => lit("85            ADD A,L"),
            0x86 => with_word("86            ADD A,($", self.reg.get_hl(), ")"),
            0x87 => lit("87            ADD A,A"),
            0x88 => lit("88            ADC A,B"),
            0x89 => lit("89            ADC A,C"),
            0x8A => lit("8A            ADC A,D"),
            0x8B => lit("8B            ADC A,E"),
            0x8C => lit("8C            ADC A,H"),
            0x8D => lit("8D            ADC A,L"),
            0x8E => with_word("8E        ADC A,($", self.reg.get_hl(), ")"),
            0x8F => lit("8F            ADC A,A"),
            0x90 => lit("90            SUB A,B"),
            0x91 => lit("91            SUB A,C"),
            0x92 => lit("92            SUB A,D"),
            0x93 => lit("93            SUB A,E"),
            0x94 => lit("94            SUB A,H"),
            0x95 => lit("95            SUB A,L"),
            0x96 => with_word("96            SUB A,($", self.reg.get_hl(), ")"),
            0x97 => lit("97            SUB A,A"),
            0x98 => lit("98            SBC A,B"),
            0x99 => lit("99            SBC A,C"),
            0x9A => lit("9A            SBC A,D"),
            0x9B => lit("9B            SBC A,E"),
            0x9C => lit("9C            SBC A,H"),
            0x9D => lit("9D            SBC A,L"),
            0x9E => with_word("9E            SBC A,($", self.reg.get_hl(), ")"),
            0x9F => lit("9F            SBC A,A"),
            _ => String::new(),
        }
    }

    /// Renders opcodes 0xA0..=0xBF.
    fn dasm_a0_bf(&self, address: u16, op: u8, n1: u8, n2: u8) -> (r: String)
        requires
            op == bus_byte(self@.bus, address),
            n1 == bus_byte(self@.bus, wrap16(address + 1)),
            n2 == bus_byte(self@.bus, wrap16(address + 2)),
            0xA0 <= op <= 0xBF,
        ensures
            r@ == spec_dasm_a0_bf(self@, address),
    {
        match op {
            0xA0 => lit("A0            AND B"),
            0xA1 => lit("A1            AND C"),
            0xA2 => lit("A2            AND D"),
            0xA3 => lit("A3            AND E"),
            0xA4 => lit("A4            AND H"),
            0xA5 => lit("A5            AND L"),
            0xA6 => with_word("A6            AND ($", self.reg.get_hl(), ")"),
            0xA7 => lit("A7            AND L"),
            0xA8 => lit("A8            XOR B"),
            0xA9 => lit("A9            XOR C"),
            0xAA => lit("AA            XOR D"),
            0xAB => lit("AB            XOR E"),
            0xAC => lit("AC            XOR H"),
            0xAD => lit("AD            XOR L"),
            0xAE => with_word("AE            XOR ($", self.reg.get_hl(), ")"),
            0xAF => lit("AF            XOR A"),
            0xB0 => lit("B0            OR B"),
            0xB1 => lit("B1            OR C"),
            0xB2 => lit("B2            OR D"),
            0xB3 => lit("B3            OR E"),
            0xB4 => lit("B4            OR H"),
            0xB5 => lit("B5            OR L"),
            0xB6 => with_word("B6            OR ($", self.reg.get_hl(), ")"),
            0xB7 => lit("B7            OR A"),
            0xB8 => lit("B8            CP B"),
            0xB9 => lit("B9            CP C"),
            0xBA => lit("BA            CP D"),
            0xBB => lit("BB            CP E"),
            0xBC => lit("BC            CP H"),
            0xBD => lit("BD            CP L"),
            0xBE => with_word("BE            CP ($", self.reg.get_hl(), ")"),
            0xBF => lit("BF            CP A"),
            _ => String::new(),
        }
    }

    /// Renders opcodes 0xC0..=0xDF.
    fn dasm_c0_df(&self, address: u16, op: u8, n1: u8, n2: u8) -> (r: String)
        requires
            op == bus_byte(self@.bus, address),
            n1 == bus_byte(self@.bus, wrap16(address + 1)),
            n2 == bus_byte(self@.bus, wrap16(address + 2)),
            0xC0 <= op <= 0xDF,
        ensures
            r@ == spec_dasm_c0_df(self@, address),
    {
        let w: u16 = (n2 as u16) << 8 | n1 as u16;
        match op {
            0xC0 => lit("C0            RET NZ"),
            0xC1 => lit("C1            POP BC"),
            0xC2 => with_pair_end("C2 ", n1, n2, "      JP NZ,$", w),
            0xC3 => with_pair_end("C3 ", n1, n2, "      JP $", w),
            0xC4 => with_pair_end("C4 ", n1, n2, "      CALL NZ,$", w),
            0xC5 => lit("C5            PUSH BC"),
            0xC6 => with_byte_end("C6 ", n1, "         ADD A,$"),
            0xC7 => lit("C7            RST 0"),
            0xC8 => lit("C8            RET Z"),
            0xC9 => lit("C9            RET"),
            0xCA => with_pair_end("CA ", n1, n2, "      JP Z,$", w),
            0xCB => cb_prefix_text(n1),
            0xCC => with_pair_end("CC ", n1, n2, "      CALL Z,$", w),
            0xCD => with_pair_end("CD ", n1, n2, "      CALL $", w),
            0xCE => with_byte_end("CE ", n1, "         ADC A,$"),
            0xCF => lit("CF            RST 08"),
            0xD0 => lit("D0            RET NC"),
            0xD1 => lit("D1            POP DE"),
            0xD2 => with_pair_end("D2 ", n1, n2, "      JP NC,$", w),
            0xD3 => with_byte("D3 ", n1, "         OUT A,($", ")"),
            0xD4 => with_pair_end("D4 ", n1, n2, "      CALL NC,$", w),
            0xD5 => lit("D5            PUSH DE"),
            0xD6 => with_byte_end("D6 ", n1, "         SUB A,$"),
            0xD7 => lit("D7            RST 10"),
            0xD8 => lit("D8            RET C"),
            0xD9 => lit("D9            EXX"),
            0xDA => with_pair_end("DA ", n1, n2, "      JP C,$", w),
            0xDB => with_byte("DB ", n1, "         IN A,($", ")"),
            0xDC => with_pair_end("DC ", n1, n2, "      CALL C,$", w),
            0xDD => String::new(),
            0xDE => with_byte_end("DE ", n1, "         SBC A,$"),
            0xDF => lit("DF            RST 18"),
            _ => String::new(),
        }
    }

    /// Renders opcodes 0xE0..=0xFF.
    fn dasm_e0_ff(&self, address: u16, op: u8, n1: u8, n2: u8) -> (r: String)
        requires
            op == bus_byte(self@.bus, address),
            n1 == bus_byte(self@.bus, wrap16(address + 1)),
            n2 == bus_byte(self@.bus, wrap16(address + 2)),
            0xE0 <= op <= 0xFF,
        ensures
            r@ == spec_dasm_e0_ff(self@, address),
    {
        let w: u16 = (n2 as u16) << 8 | n1 as u16;
        match op {
            0xE0 => lit("E0            RET PO"),
            0xE1 => lit("E1            POP HL"),
            0xE2 => with_pair_end("E2 ", n1, n2, "      JP PO,$", w),
            0xE3 => lit("E3            EX (SP),HL"),
            0xE4 => with_pair_end("E4 ", n1, n2, "      CALL PO,$", w),
            0xE5 => lit("E5            PUSH HL"),
            0xE6 => with_byte_end("E6 ", n1, "         AND $"),
            0xE7 => lit("E7            RST 20"),
            0xE8 => lit("E8            RET PE"),
            0xE9 => with_word_end("E9            JP $", self.reg.get_hl()),
            0xEA => with_pair_end("EA ", n1, n2, "      JP PE,$", w),
            0xEB => lit("EB            EX DE,HL"),
            0xEC => with_pair_end("EC ", n1, n2, "      CALL PE,$", w),
            0xED => String::new(),
            0xEE => with_byte_end("EE ", n1, "         XOR $"),
            0xEF => lit("EF            RST 28"),
            0xF0 => lit("F0            RET P"),
            0xF1 => lit("F1            POP AF"),
            0xF2 => with_pair_end("F2 ", n1, n2, "      JP P,$", w),
            0xF3 => lit("F3            DI"),
            0xF4 => with_pair_end("F4 ", n1, n2, "      CALL P,$", w),
            0xF5 => lit("F5            PUSH AF"),
            0xF6 => with_byte_end("F6 ", n1, "         OR $"),
            0xF7 => lit("F7            RST 30"),
            0xF8 => lit("F8            RET M"),
            0xF9 => lit("F9            LD SP,HL"),
            0xFA => with_pair_end("FA ", n1, n2, "      JP M,$", w),
            0xFB => lit("FB            EI"),
            0xFC => with_pair_end("FC ", n1, n2, "      CALL M,$", w),
            0xFD => String::new(),
            0xFE => with_byte_end("FE ", n1, "         CP $"),
            0xFF => lit("FF            RST 38"),
            _ => String::new(),
        }
    }

    /// Disassembles the instruction at `address` without touching any
    /// state: the rendered line and the instruction's byte length, the
    /// latter from the same length table the engine advances by.
    pub fn dasm(&self, address: u16) -> (res: (String, u8))
        ensures
            res.0@ == spec_dasm_text(self@, address),
            res.1 == spec_instr_len(bus_byte(self@.bus, address)),
    {
        let opcode = self.bus.leer_byte(address);
        let n1 = self.bus.leer_byte(wadd16(address, 1));
        let n2 = self.bus.leer_byte(wadd16(address, 2));
        let instr = if opcode <= 0x1F {
            self.dasm_00_1f(address, opcode, n1, n2)
        } else if opcode <= 0x3F {
            self.dasm_20_3f(address, opcode, n1, n2)
        } else if opcode <= 0x5F {
            self.dasm_40_5f(address, opcode, n1, n2)
        } else if opcode <= 0x7F {
            self.dasm_60_7f(address, opcode, n1, n2)
        } else if opcode <= 0x9F {
            self.dasm_80_9f(address, opcode, n1, n2)
        } else if opcode <= 0xBF {
            self.dasm_a0_bf(address, opcode, n1, n2)
        } else if opcode <= 0xDF {
            self.dasm_c0_df(address, opcode, n1, n2)
        } else {
            self.dasm_e0_ff(address, opcode, n1, n2)
        };
        let instr_size = instr_len(opcode);
        (instr, instr_size)
    }
}

} // verus!
