//! Instruction-accurate model of a Zilog Z80 microcomputer core: a
//! byte-addressable memory bus with an optional read-only window, the Z80
//! register file with its packed flag register, an instruction
//! decode/execute engine over the unprefixed opcode space, a disassembler
//! that mirrors the engine's instruction-length table, and the command
//! protocol spoken to an attached board over a byte stream.

pub mod bit;
pub mod bus;
pub mod cpu;
pub mod dasm;
pub mod flags;
pub mod protocol;
pub mod registers;
