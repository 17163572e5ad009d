//! A verified emulator for the LC-3 instruction-set architecture: a
//! word-addressed, 16-bit, register-based teaching ISA with sixteen opcodes,
//! tri-valued condition flags, and a small trap vector table.
//!
//! The crate is organised in three layers:
//! - [`bit_util`] holds the sign-extension helpers for the narrow signed
//!   fields of the instruction word;
//! - [`instructions`] holds the instruction type and the bit-exact, total
//!   codec between a 16-bit word and a tagged instruction value;
//! - [`machine`] holds the architectural state (register file, memory,
//!   instruction pointer, condition code) and the fetch-decode-execute loop,
//!   including the trap dispatcher that bridges program I/O to the host.

pub mod bit_util;
pub mod instructions;
pub mod machine;
