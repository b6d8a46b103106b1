//! Compile-time failures: a kind with a message, attributed to a source
//! location. The first failure anywhere aborts the whole compilation.
use crate::ast::Location;
use vstd::prelude::*;

verus! {

/// The two failure kinds: a tree-shape violation where a specific node
/// variant was expected, and a genuine semantic defect.
#[derive(Debug, PartialEq)]
pub enum CompileErrorType {
    SyntaxError(String),
    TypeError(String),
}

/// A failure together with the source position it is attributed to.
#[derive(Debug, PartialEq)]
pub struct CompileError {
    pub error: CompileErrorType,
    pub location: Location,
}

/// Mathematical image of `CompileErrorType`.
pub enum ErrorKindV {
    SyntaxError(Seq<char>),
    TypeError(Seq<char>),
}

/// Mathematical image of `CompileError`.
pub struct CompileErrorV {
    pub error: ErrorKindV,
    pub location: Location,
}

impl View for CompileErrorType {
    type V = ErrorKindV;

    open spec fn view(&self) -> ErrorKindV {
        match *self {
            CompileErrorType::SyntaxError(m) => ErrorKindV::SyntaxError(m@),
            CompileErrorType::TypeError(m) => ErrorKindV::TypeError(m@),
        }
    }
}

impl View for CompileError {
    type V = CompileErrorV;

    open spec fn view(&self) -> CompileErrorV {
        CompileErrorV { error: self.error@, location: self.location }
    }
}

} // verus!
