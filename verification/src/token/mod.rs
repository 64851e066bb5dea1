//! The tagged values that programs are made of.

pub mod instruction;
pub mod operand;

use vstd::prelude::*;
use vstd::std_specs::cmp::PartialEqSpecImpl;
use crate::error::VmError;
use crate::token::instruction::Instruction;
use crate::token::operand::{equal_spec, Operand, OperandView};

verus! {

/// One cell of a program or of the operand stack: an opcode or a literal.
#[derive(Debug)]
pub enum Token {
    Instruction(Instruction),
    Data(Operand),
}

/// The mathematical value of a [`Token`].
pub enum TokenView {
    Instruction(Instruction),
    Data(OperandView),
}

impl View for Token {
    type V = TokenView;

    open spec fn view(&self) -> TokenView {
        match *self {
            Token::Instruction(i) => TokenView::Instruction(i),
            Token::Data(d) => TokenView::Data(d@),
        }
    }
}

impl Clone for Token {
    fn clone(&self) -> (r: Self)
        ensures
            r@ == self@,
    {
        match self {
            Token::Instruction(i) => Token::Instruction(*i),
            Token::Data(d) => Token::Data(d.clone()),
        }
    }
}

/// Equality of tokens: the same opcode, or operands that are equal.
pub open spec fn token_equal_spec(l: TokenView, r: TokenView) -> bool {
    match (l, r) {
        (TokenView::Instruction(a), TokenView::Instruction(b)) => a == b,
        (TokenView::Data(a), TokenView::Data(b)) => equal_spec(a, b),
        _ => false,
    }
}

impl PartialEq for Token {
    fn eq(&self, other: &Token) -> (r: bool) {
        match (self, other) {
            (Token::Instruction(a), Token::Instruction(b)) => *a == *b,
            (Token::Data(a), Token::Data(b)) => *a == *b,
            _ => false,
        }
    }
}

impl PartialEqSpecImpl for Token {
    open spec fn obeys_eq_spec() -> bool {
        true
    }

    open spec fn eq_spec(&self, other: &Token) -> bool {
        token_equal_spec(self@, other@)
    }
}

/// The truth value that a token carries: that of a boolean operand.
pub open spec fn bool_spec(t: TokenView) -> Result<bool, VmError> {
    match t {
        TokenView::Data(OperandView::Bool(b)) => Ok(b),
        _ => Err(VmError::TypeMismatch),
    }
}

/// The operand that a token carries; an opcode carries none.
pub open spec fn data_spec(t: TokenView) -> Result<OperandView, VmError> {
    match t {
        TokenView::Data(d) => Ok(d),
        TokenView::Instruction(_) => Err(VmError::NotData),
    }
}

impl Token {
    /// The data token that holds `d`.
    pub fn data(d: Operand) -> (t: Token)
        ensures
            t == Token::Data(d),
    {
        Token::Data(d)
    }

    /// The operand that the token carries.
    pub fn get_data(&self) -> (r: Result<&Operand, VmError>)
        ensures
            match r {
                Ok(d) => data_spec(self@) == Ok::<OperandView, VmError>(d@),
                Err(e) => data_spec(self@) == Err::<OperandView, VmError>(e),
            },
    {
        match self {
            Token::Instruction(_) => Err(VmError::NotData),
            Token::Data(d) => Ok(d),
        }
    }

    /// Takes the operand out of the token.
    pub fn into_data(self) -> (r: Result<Operand, VmError>)
        ensures
            match r {
                Ok(d) => data_spec(self@) == Ok::<OperandView, VmError>(d@),
                Err(e) => data_spec(self@) == Err::<OperandView, VmError>(e),
            },
    {
        match self {
            Token::Instruction(_) => Err(VmError::NotData),
            Token::Data(d) => Ok(d),
        }
    }

    /// The truth value that the token carries. Only a boolean operand has
    /// one.
    pub fn to_bool(&self) -> (r: Result<bool, VmError>)
        ensures
            r == bool_spec(self@),
    {
        match self {
            Token::Data(Operand::Bool(v)) => Ok(*v),
            _ => Err(VmError::TypeMismatch),
        }
    }
}

} // verus!
