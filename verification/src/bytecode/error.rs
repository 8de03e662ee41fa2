//! What can go wrong in the stack machine.
use vstd::prelude::*;

verus! {

/// A failure of the stack machine.
#[derive(Clone, Copy, Debug, PartialEq, Eq, Structural)]
pub enum LoxError {
    CompileError,
    RuntimeError,
}

impl LoxError {
    /// The text of the error.
    pub open spec fn text(self) -> Seq<char> {
        match self {
            LoxError::CompileError => "Compile Error"@,
            LoxError::RuntimeError => "Runtime Error"@,
        }
    }

    /// The text of the error.
    pub fn message(&self) -> (out: &'static str)
        ensures
            out@ == self.text(),
    {
        match self {
            LoxError::CompileError => "Compile Error",
            LoxError::RuntimeError => "Runtime Error",
        }
    }
}

} // verus!
