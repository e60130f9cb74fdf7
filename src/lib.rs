//! The execution substrate of a stack machine on 256-bit words: the opcode table, the
//! evaluation stack, byte-addressed memory, and the analysis that tells code from push data.

pub mod analysis;
pub mod common;
pub mod contract;
pub mod interpreter;
pub mod memory;
pub mod opcodes;
pub mod stack;
pub mod word;
