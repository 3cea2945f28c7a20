//! An emulator core for an 8-bit microprocessor with the classic 6502
//! instruction encoding.
//!
//! The crate decodes instruction bytes into typed instructions, resolves
//! addressing modes against a register file and a banked memory, and executes
//! instructions one step at a time. Every executable function carries a
//! contract over a mathematical model of the machine, and the contracts are
//! machine-checked.

pub mod addrmode;
pub mod arch;
pub mod assembly;
pub mod binary;
pub mod error;
pub mod instruction;
pub mod machine;
pub mod memory;
