//! The conditions under which the machine refuses to go on.

use vstd::prelude::*;

verus! {

/// Every way in which evaluating a value or executing an instruction can
/// fail. Each is fatal to the step that met it; none is retried.
#[derive(Debug, PartialEq, Eq, Clone, Copy, Structural)]
pub enum VmError {
    /// A token was fetched at or past the end of the program.
    ProgramOutOfBounds,
    /// The token at the instruction pointer is data, not an opcode.
    InvalidProgramShape,
    /// The operand stack holds fewer values than the instruction takes.
    StackUnderflow,
    /// The operands have types that the operation is not defined for.
    TypeMismatch,
    /// A call address is not an integer strictly between zero and the
    /// program's length.
    InvalidCallTarget,
    /// A return was executed with only the base frame alive.
    ReturnFromBaseFrame,
    /// An opcode stands where a literal operand was expected.
    NotData,
    /// An integer was divided by zero.
    DivisionByZero,
    /// The result of an integer operation does not fit in 64 bits.
    ArithmeticOverflow,
}

} // verus!
