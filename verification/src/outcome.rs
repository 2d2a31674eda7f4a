//! What a step of the machine reports to its driver.

use vstd::prelude::*;

verus! {

/// What a completed step asks of the driver.
#[derive(Copy, Clone, Debug, PartialEq, Eq, Structural)]
pub enum StepEvent {
    /// Nothing: the machine is ready for its next step.
    Continue,
    /// The instruction is reserved: it was accepted and did nothing. The
    /// driver may report the opcode as a diagnostic.
    Reserved {
        /// The reserved instruction word.
        opcode: u16,
    },
    /// The program asked to end: the driver should shut down cleanly.
    Exit,
}

/// Why an instruction could not be carried out.
#[derive(Copy, Clone, Debug, PartialEq, Eq, Structural)]
pub enum Reason {
    /// The opcode is not an instruction, or not one of the machine's variant.
    InvalidOpcode,
    /// A subroutine call with the call stack full.
    StackOverflow,
    /// A subroutine return with the call stack empty.
    StackUnderflow,
    /// An operand lies beyond the end of memory.
    MemoryAccess,
    /// A register names a key that does not exist.
    KeyIndex,
}

/// A fatal condition. The step that reports one leaves the machine as it was,
/// so stepping again reports the same fault.
#[derive(Copy, Clone, Debug, PartialEq, Eq, Structural)]
pub enum Fault {
    /// The program counter points at no complete instruction word.
    Fetch {
        /// The program counter.
        pc: u16,
    },
    /// The instruction at the program counter could not be carried out.
    Execute {
        /// Why it could not.
        reason: Reason,
        /// The instruction word.
        opcode: u16,
        /// The address the word was fetched from.
        pc: u16,
    },
}

/// What the driver is to do with the tone.
#[derive(Copy, Clone, Debug, PartialEq, Eq, Structural)]
pub enum AudioCommand {
    /// Start the tone, or keep it playing.
    StartBeep,
    /// Stop the tone, or keep it silent.
    StopBeep,
}

} // verus!
