//! What can be wrong with a line of assembly text.

use vstd::prelude::*;

verus! {

/// The result of reading a program.
pub type ParseResult<T> = Result<T, ParseError>;

/// What is wrong with a number.
#[derive(Debug, Clone, Copy, PartialEq, Eq, Structural)]
pub enum NumberError {
    /// It has no digits.
    Empty,
    /// It holds a character that is no digit.
    InvalidDigit,
    /// It is too large.
    PosOverflow,
}

/// What is wrong with a line.
#[derive(Debug, PartialEq, Eq)]
pub enum LineError {
    /// The mnemonic is none of the instruction set; it holds the mnemonic.
    InvalidInstruction(String),
    /// An address or a number is malformed.
    InvalidAddress(NumberError),
    /// A jump with two operands whose first is not `v0`.
    WrongJumpRegister,
    /// A register is malformed; it holds the operand.
    InvalidRegister(String),
    /// The number of operands that the instruction takes, and the number found.
    WrongNumberOfArguments(usize, usize),
    /// Anything else.
    Unknown,
}

/// Why a program could not be read.
#[derive(Debug, PartialEq, Eq)]
pub enum ParseError {
    /// The number of the line, counted from 0, and what is wrong with it.
    Line(usize, LineError),
}

/// What is wrong with a line, as a mathematical value.
pub enum LineFault {
    InvalidInstruction(Seq<char>),
    InvalidAddress(NumberError),
    WrongJumpRegister,
    InvalidRegister(Seq<char>),
    WrongNumberOfArguments(usize, usize),
    Unknown,
}

impl View for LineError {
    type V = LineFault;

    open spec fn view(&self) -> LineFault {
        match self {
            LineError::InvalidInstruction(mnemonic) => LineFault::InvalidInstruction(mnemonic@),
            LineError::InvalidAddress(kind) => LineFault::InvalidAddress(*kind),
            LineError::WrongJumpRegister => LineFault::WrongJumpRegister,
            LineError::InvalidRegister(token) => LineFault::InvalidRegister(token@),
            LineError::WrongNumberOfArguments(expected, found) => LineFault::WrongNumberOfArguments(
                *expected,
                *found,
            ),
            LineError::Unknown => LineFault::Unknown,
        }
    }
}

impl View for ParseError {
    type V = (usize, LineFault);

    open spec fn view(&self) -> (usize, LineFault) {
        match self {
            ParseError::Line(line, error) => (*line, error@),
        }
    }
}

/// A result with its error as a mathematical value.
pub open spec fn faulted<T>(result: Result<T, LineError>) -> Result<T, LineFault> {
    match result {
        Ok(value) => Ok(value),
        Err(error) => Err(error@),
    }
}

} // verus!
