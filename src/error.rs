use vstd::prelude::*;

verus! {

/// A fatal condition: the machine cannot go on and the caller decides what follows.
#[derive(Clone, Copy, Debug, PartialEq, Eq, Structural)]
pub enum Chip8Error {
    /// A subroutine call found the call stack full.
    StackOverflow,
    /// A return, or a look at the top, found the call stack empty.
    StackUnderflow,
    /// A ROM does not fit between the program start and the end of memory.
    RomTooLarge,
}

} // verus!
