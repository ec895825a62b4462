//! An x86 / x86-64 instruction encoder: from an operational mode, a mnemonic
//! signature and resolved operands to a stream of literal bytes, symbolic
//! slots and relocation entries.

pub mod addressing;
pub mod encoder;
pub mod error;
pub mod immediates;
pub mod laws;
pub mod memory_offsets;
pub mod operands;
pub mod prefixes;
pub mod relocations;
pub mod statements;
pub mod registers;
