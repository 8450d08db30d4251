//! An emulator core for an 8-bit handheld console CPU: register file, ALU with
//! exact flag semantics, opcode decoding and execution, interrupts and timer.

pub mod cpu;
pub mod memory;
pub mod text;
pub mod disassembler;
pub mod assembler;
pub mod debugger;
