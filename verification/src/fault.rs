//! The ways a step can fail, and what the machine does with an opcode it does
//! not know.

use vstd::prelude::*;

verus! {

/// Why an instruction could not be carried out.
#[derive(Clone, Copy, Debug, PartialEq, Eq, Structural)]
pub enum Fault {
    /// `RET` with an empty call stack.
    StackUnderflow,
    /// `CALL` with all sixteen stack slots in use.
    StackOverflow,
    /// The two bytes at the program counter match no instruction; the payload
    /// is the opcode, first byte high.
    UnimplementedInstruction(u16),
    /// An instruction fetch, a jump target, the index register or a range
    /// starting at it reaches outside the 4096 bytes of memory.
    MemoryRange,
}

/// What a step does to the machine when it meets an unknown opcode. Either
/// way the step reports `Fault::UnimplementedInstruction`.
#[derive(Clone, Copy, Debug, PartialEq, Eq, Structural)]
pub enum UnknownOpcodePolicy {
    /// Put the machine back into its power-on state.
    Reset,
    /// Leave the machine exactly as it was.
    Halt,
}

impl Fault {
    /// A short fixed description of the fault.
    pub fn message(self) -> (r: &'static str)
        ensures
            r@ == (match self {
                Fault::StackUnderflow => "Stack underflow!"@,
                Fault::StackOverflow => "Stack overflow!"@,
                Fault::UnimplementedInstruction(_) => "Unimplemented instruction!"@,
                Fault::MemoryRange => "Memory access out of range!"@,
            }),
    {
        match self {
            Fault::StackUnderflow => "Stack underflow!",
            Fault::StackOverflow => "Stack overflow!",
            Fault::UnimplementedInstruction(_) => "Unimplemented instruction!",
            Fault::MemoryRange => "Memory access out of range!",
        }
    }
}

} // verus!
