use vstd::prelude::*;

verus! {

/// Why loading a program or executing an instruction failed.
///
/// Every error is final for the run: the operation that reports it leaves the
/// machine exactly as it found it.
#[derive(Clone, Copy, Debug, PartialEq, Eq, Structural)]
pub enum Chip8Error {
    /// The program does not fit between the program start and the end of memory.
    RomTooLarge { size: usize },
    /// The word at `pc` is no instruction.
    UnknownOpcode { opcode: u16, pc: u16 },
    /// A call at `pc` found all sixteen stack slots in use.
    StackOverflow { sp: usize, pc: u16 },
    /// A return at `pc` found the stack empty.
    StackUnderflow { sp: usize, pc: u16 },
    /// The instruction at `pc` would touch memory at `address`, past its end.
    AddressOutOfRange { address: usize, pc: u16 },
}

} // verus!
