//! A small register-free bytecode virtual machine with a verified
//! fetch-decode-execute engine.
//!
//! A program is a flat sequence of tokens, opcodes with their immediates
//! in line. The engine in [`vm`] executes it against an operand stack and a
//! stack of call frames ([`frame`]); the values and the rules by which they
//! combine are in [`token`]. [`instruction`] holds the minimal token model,
//! whose operands are integers. [`proofs`] states what holds of every run.

pub mod error;
pub mod frame;
pub mod instruction;
pub mod proofs;
pub mod token;
pub mod vm;
