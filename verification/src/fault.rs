//! The ways in which an instruction stream or its execution can be wrong.

use vstd::prelude::*;

verus! {

/// Why the machine refuses to decode or to go on executing.
///
/// A conforming instruction stream raises none of these. They are defects of
/// the program that was loaded, not conditions that the program can handle.
#[derive(Debug, PartialEq, Eq, Structural, Clone, Copy)]
pub enum Fault {
    /// The stream ends inside an instruction, or holds a code that is no
    /// opcode.
    MalformedInstruction,
    /// An instruction does not find the operands that it expects.
    TypeViolation,
    /// A floating-point number that was loaded is NaN or infinite.
    FloatingPointInvalid,
    /// A local variable is addressed in a frame further out than the
    /// outermost.
    FrameDepthExceeded,
    /// A local variable is addressed beyond the slots of its frame.
    LocalIndexOutOfRange,
    /// A control-flow instruction leaves the nesting of frames or the
    /// addressable instructions.
    ControlFlowViolation,
    /// A memory instruction names an alignment or a size that is not allowed.
    MemoryFault,
}

} // verus!
