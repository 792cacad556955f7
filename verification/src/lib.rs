//! Decode-and-execute core of a MIPS-family (R4000-class) instruction-set
//! emulator: bitfield extraction, format classification, mnemonic resolution,
//! per-instruction execution semantics, and an opcode registry.

pub mod decode;
pub mod decoded;
pub mod error;
pub mod execute;
pub mod instruction;
pub mod decoder;
