//! The conditions under which an operation of the machine is refused.

use vstd::prelude::*;

verus! {

/// Why a `load`, a key accessor or a cycle was rejected. A rejected operation
/// leaves the machine exactly as it was.
#[derive(Clone, Copy, Debug, PartialEq, Eq, Structural)]
pub enum Chip8Error {
    /// The program does not fit between address 0x200 and the end of memory.
    ProgramTooLarge,
    /// A key index of 16 or more was given.
    InvalidKeyIndex,
    /// A subroutine call was made with all 16 stack levels in use.
    StackOverflow,
    /// A return was made with no call outstanding.
    StackUnderflow,
    /// The fetched word, carried here, matches no instruction.
    UnknownOpcode(u16),
    /// The instruction would read or write beyond the last memory address.
    AddressOutOfRange,
}

} // verus!
