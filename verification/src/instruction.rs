//! The minimal token model: every operand is a signed integer, and truth is
//! "non-zero".

use vstd::prelude::*;

verus! {

/// The operations of the minimal machine.
#[derive(Debug, PartialEq, Eq, Clone, Copy, Structural)]
pub enum Instruction {
    Halt,
    Push,
    Pop,
    Dup,
    Add,
    Sub,
    Mul,
    Div,
    Not,
    And,
    Or,
    Iseq,
    Isgt,
    Isge,
    Jmp,
    Jif,
    Load,
    Store,
    Ret,
    Call,
}

/// An operand of the minimal machine.
pub type Operand = i64;

/// Why a token could not be read as an operand.
#[derive(Debug, PartialEq, Eq, Clone, Copy, Structural)]
pub enum TokenError {
    /// The token is an instruction, not data.
    NotData,
}

/// One cell of a program: an opcode or an integer literal.
#[derive(Debug, PartialEq, Eq, Clone, Copy, Structural)]
pub enum Token {
    Instruction(Instruction),
    Data(Operand),
}

impl Token {
    /// The wrapped operand; an instruction carries none.
    pub fn get_data(&self) -> (r: Result<Operand, TokenError>)
        ensures
            r == (match *self {
                Token::Data(d) => Ok::<Operand, TokenError>(d),
                Token::Instruction(_) => Err(TokenError::NotData),
            }),
    {
        match self {
            Token::Instruction(_) => Err(TokenError::NotData),
            Token::Data(d) => Ok(*d),
        }
    }

    /// The data token that holds `d`.
    pub fn number(d: Operand) -> (t: Token)
        ensures
            t == Token::Data(d),
    {
        Token::Data(d)
    }

    /// The truth value of an operand: every integer but zero is true.
    pub fn to_bool(d: Operand) -> (b: bool)
        ensures
            b == (d != 0),
    {
        d != 0
    }

    /// The truth value of a data token; an instruction has none.
    pub fn vto_bool(&self) -> (r: Result<bool, TokenError>)
        ensures
            r == (match *self {
                Token::Data(d) => Ok::<bool, TokenError>(d != 0),
                Token::Instruction(_) => Err(TokenError::NotData),
            }),
    {
        match self {
            Token::Instruction(_) => Err(TokenError::NotData),
            Token::Data(d) => Ok(*d != 0),
        }
    }

    /// The canonical true token, `Data(1)`.
    pub fn v_true() -> (t: Token)
        ensures
            t == Token::Data(1),
    {
        Token::Data(1)
    }

    /// The canonical false token, `Data(0)`.
    pub fn v_false() -> (t: Token)
        ensures
            t == Token::Data(0),
    {
        Token::Data(0)
    }
}

} // verus!
