//! A verified virtual machine for a 16-bit word-oriented architecture:
//! eight registers, an unbounded value stack, a flat 15-bit address space
//! and 22 fixed opcodes.  Binary images are loaded as little-endian word
//! pairs and executed instruction by instruction; every opcode's exact
//! semantics — wraparound arithmetic, branch rules, stack discipline and
//! the error taxonomy — is stated as a specification-level interpreter and
//! proved of the executable code.

pub mod input;
pub mod isa;
pub mod laws;
pub mod run;
pub mod step;
pub mod vm;
