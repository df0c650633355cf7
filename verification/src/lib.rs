//! Core of a Game Boy (DMG) CPU interpreter for the Sharp SM83 processor:
//! a register file with packed flag views, an opcode decoder, and a verified
//! decode/execute engine with bit-exact flag semantics.

pub mod cpu;
pub mod instruction;
pub mod laws;
pub mod register;
