//! What the machine reports instead of running on from a state or an
//! instruction that it cannot handle.

use vstd::prelude::*;

verus! {

/// An error of the machine. Each one leaves the machine as it was before the
/// failed operation, so the caller may halt, log or go on.
#[derive(Clone, Copy, Debug, PartialEq, Eq, Structural)]
pub enum Chip8Error {
    /// The two bytes form no instruction. `pc` is the address that they were
    /// fetched from.
    UnknownInstruction { b0: u8, b1: u8, pc: u16 },
    /// A call with every slot of the call stack in use, or a stack pointer
    /// that lies beyond the last slot.
    StackOverflow,
    /// A return with an empty call stack.
    StackUnderflow,
    /// A fetch at `pc` would read beyond the end of memory.
    AddressOverflow { pc: u16 },
}

} // verus!
