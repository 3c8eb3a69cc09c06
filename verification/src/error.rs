//! The ways in which loading or running a program can fail.

use vstd::prelude::*;

verus! {

/// A fatal condition. None of them can be recovered from in the middle of a
/// run; the machine is left as it was before the failing step.
#[derive(Debug, Clone, Copy, PartialEq, Eq, Structural)]
pub enum ChipError {
    /// The word fetched at `pc` matches no instruction.
    UnknownOpcode { word: u16, pc: u16 },
    /// A program of `size` bytes does not fit between the program start and
    /// the end of memory.
    ProgramLoadError { size: usize },
    /// A return was executed while the call stack was empty.
    StackUnderflow,
    /// A call was executed while the call stack was full.
    StackOverflow,
}

} // verus!
