//! What can go wrong while compiling a program and while running one.

use vstd::prelude::*;
use crate::ast::{RegisterRef, StackRef};

verus! {

/// What the parser was looking for when it gave up.
#[derive(Clone, Copy, Debug, PartialEq, Eq, Structural)]
pub enum SyntaxErrorKind {
    /// The source ended before the first instruction.
    ExpectedKeyword,
    /// A word that should start an instruction is no keyword of the
    /// language, or text follows an instruction on its line.
    InvalidKeyword,
    /// An operand that should name a register does not.
    InvalidRegister,
    /// An operand that should name a stack does not.
    InvalidStack,
    /// An operand that should be a literal or a register is neither.
    InvalidValue,
}

/// A syntax error: where in the source it is, as a byte offset, and what
/// was expected there.
#[derive(Clone, Copy, Debug, PartialEq, Eq, Structural)]
pub struct SyntaxError {
    pub position: usize,
    pub kind: SyntaxErrorKind,
}

/// An error found while compiling.
#[derive(Clone, Debug, PartialEq, Eq)]
#[allow(inconsistent_fields)]
pub enum CompileError {
    /// The source is not a well-formed program. `text` is the source from
    /// `position` to its end.
    ParseError { position: usize, kind: SyntaxErrorKind, text: Vec<u8> },
    /// The hardware has no such register.
    InvalidRegisterReference { name: RegisterRef },
    /// The hardware has no such stack.
    InvalidStackReference { name: StackRef },
    /// An instruction writes to a read-only register.
    ReadOnlyWrite { name: RegisterRef },
}

/// The mathematical value of a [`CompileError`].
#[allow(inconsistent_fields)]
pub enum CompileErrorView {
    ParseError { position: usize, kind: SyntaxErrorKind, text: Seq<u8> },
    InvalidRegisterReference { name: RegisterRef },
    InvalidStackReference { name: StackRef },
    ReadOnlyWrite { name: RegisterRef },
}

impl View for CompileError {
    type V = CompileErrorView;

    open spec fn view(&self) -> CompileErrorView {
        match *self {
            CompileError::ParseError { position, kind, text } => CompileErrorView::ParseError {
                position,
                kind,
                text: text@,
            },
            CompileError::InvalidRegisterReference { name } => {
                CompileErrorView::InvalidRegisterReference { name }
            },
            CompileError::InvalidStackReference { name } => {
                CompileErrorView::InvalidStackReference { name }
            },
            CompileError::ReadOnlyWrite { name } => CompileErrorView::ReadOnlyWrite { name },
        }
    }
}

/// The values of a list of errors, in the same order.
pub open spec fn view_errors(errors: Seq<CompileError>) -> Seq<CompileErrorView> {
    Seq::new(errors.len(), |i: int| errors[i]@)
}

/// Why an instruction could not be executed.
#[derive(Clone, Copy, Debug, PartialEq, Eq, Structural)]
pub enum RuntimeError {
    /// `READ` found the input queue empty.
    InputExhausted,
    /// `PUSH` found the stack at its capacity.
    StackOverflow { stack: StackRef },
    /// `POP` found the stack empty.
    StackUnderflow { stack: StackRef },
    /// A step was requested of a machine that has already halted.
    Terminated,
}

} // verus!
