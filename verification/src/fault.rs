//! The fatal conditions that the machine and the loader report.

use vstd::prelude::*;

verus! {

/// A fatal condition. None of them can be retried: the host decides whether
/// to halt or to restart the machine.
#[derive(Clone, Copy, Debug, PartialEq, Eq, Structural)]
pub enum Fault {
    /// A call was made with sixteen return addresses already on the stack.
    StackOverflow,
    /// A return was made with no return address on the stack.
    StackUnderflow,
    /// The instruction to execute is not part of the instruction set.
    UnknownOpcode,
    /// The program image does not fit between address 0x200 and the end of memory.
    OversizedCartridge,
}

} // verus!
