use vstd::prelude::*;
use crate::memory::Memory;
use crate::stack::Stack;

verus! {

/// Options of the interpreter.
pub struct Config {
    /// Forces the base fee to 0 (needed for calls at price 0).
    no_base_fee: bool,
    /// Records the preimages of the hashes that KECCAK256 computes.
    enable_pre_image_recording: bool,
    /// Further improvement proposals to enable.
    extra_eips: Vec<u32>,
}

/// What belongs to one call, such as its stack and memory, but not transients like the program
/// counter and the gas left.
pub struct ScopeContext {
    memory: Memory,
    stack: Stack,
}

} // verus!
