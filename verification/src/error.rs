//! The failures of classification and rendering.

use vstd::prelude::*;

verus! {

/// Why a return type could not be classified or an entity could not be rendered.
#[derive(Clone, Copy, Debug, PartialEq, Eq, Structural)]
pub enum ErrorKind {
    /// The declared return type maps to none of the canonical shapes.
    UnknownReturnShape,
    /// An argument or return type is not connected to the entity in the graph.
    UnresolvedTypeReference,
    /// The declared return shape and the realized return variant disagree.
    ReturnShapeMismatch,
    /// Operator metadata on a callable that does not take exactly two arguments.
    InvalidOperatorArity,
    /// A composite or skipped type for which no SQL name can be given.
    MissingCompositeName,
}

/// A failed render, with the entity it concerns and where that was declared.
#[derive(Clone, Debug)]
pub struct SqlError {
    pub kind: ErrorKind,
    pub identifier: String,
    pub file: String,
    pub line: u32,
}

impl ErrorKind {
    /// A one-line description, for diagnostics.
    pub fn message(&self) -> (s: &'static str)
        ensures
            s@ == match *self {
                ErrorKind::UnknownReturnShape => "the return type has no known shape"@,
                ErrorKind::UnresolvedTypeReference => "a type was not found in the graph"@,
                ErrorKind::ReturnShapeMismatch => "the declared and the realized return shape differ"@,
                ErrorKind::InvalidOperatorArity => "an operator takes exactly two arguments"@,
                ErrorKind::MissingCompositeName => "a type has no SQL name"@,
            },
    {
        match self {
            ErrorKind::UnknownReturnShape => "the return type has no known shape",
            ErrorKind::UnresolvedTypeReference => "a type was not found in the graph",
            ErrorKind::ReturnShapeMismatch => "the declared and the realized return shape differ",
            ErrorKind::InvalidOperatorArity => "an operator takes exactly two arguments",
            ErrorKind::MissingCompositeName => "a type has no SQL name",
        }
    }
}

} // verus!
