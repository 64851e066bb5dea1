//! The opcode set of the machine.

use vstd::prelude::*;

verus! {

/// The operations that the engine can execute.
#[derive(Debug, PartialEq, Eq, Clone, Copy, Structural)]
pub enum Instruction {
    Halt,
    Push,
    Pop,
    Dup,
    Add,
    Sub,
    Mul,
    Div,
    Not,
    And,
    Or,
    Iseq,
    Isgt,
    Isge,
    Jmp,
    Jif,
    Load,
    Store,
    Ret,
    Call,
    Write,
}

impl Instruction {
    /// Whether the opcode takes two operands from the stack and leaves one.
    pub open spec fn is_binary(self) -> bool {
        self is Add || self is Sub || self is Mul || self is Div || self is And || self is Or
            || self is Iseq || self is Isgt || self is Isge
    }

    /// Whether the opcode is one of the four arithmetic operations.
    pub open spec fn is_arithmetic(self) -> bool {
        self is Add || self is Sub || self is Mul || self is Div
    }
}

} // verus!
