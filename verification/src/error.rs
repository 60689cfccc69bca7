//! The ways in which an operation of the machine can be refused.

use vstd::prelude::*;

verus! {

/// Why an operation was refused. A refused operation changes nothing.
#[derive(Clone, Copy, Debug, PartialEq, Eq, Structural)]
pub enum Chip8Error {
    /// A memory address outside `0..=4095`, or a register index outside `0..=15`.
    OutOfBounds,
    /// An image that does not fit into memory at the offset asked for.
    ImageTooLarge,
    /// A subroutine call with twelve return addresses already on the stack.
    StackOverflow,
    /// A return with no return address on the stack.
    StackUnderflow,
    /// An opcode that encodes no instruction.
    UnknownInstruction,
}

impl Chip8Error {
    /// A short description for logs and messages.
    pub fn message(&self) -> (text: &'static str)
        ensures
            text@ == describe(*self),
    {
        match self {
            Chip8Error::OutOfBounds => "Memory out of bounds",
            Chip8Error::ImageTooLarge => "Invalid image size",
            Chip8Error::StackOverflow => "Call stack overflow",
            Chip8Error::StackUnderflow => "Return without call",
            Chip8Error::UnknownInstruction => "Unknown opcode",
        }
    }
}

/// The text that `Chip8Error::message` gives for each kind of error.
pub open spec fn describe(e: Chip8Error) -> Seq<char> {
    match e {
        Chip8Error::OutOfBounds => "Memory out of bounds"@,
        Chip8Error::ImageTooLarge => "Invalid image size"@,
        Chip8Error::StackOverflow => "Call stack overflow"@,
        Chip8Error::StackUnderflow => "Return without call"@,
        Chip8Error::UnknownInstruction => "Unknown opcode"@,
    }
}

} // verus!
