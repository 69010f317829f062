//! The failure taxonomy of the session layer.
//!
//! Every operation reports failures through [`Error`]; nothing is silently
//! swallowed. A failure inside a nested frame propagates to that frame's
//! immediate caller only.

use vstd::prelude::*;

verus! {

/// Spec-level image of an [`Error`], with string payloads as `Seq<char>`.
pub enum ErrorModel {
    /// Malformed SQL; the message is surfaced verbatim and never retried.
    SyntaxError(Seq<char>),
    /// Caller handed the wrong number of arguments; detected before any
    /// engine call.
    ArgumentMismatch { expected: nat, got: nat },
    /// Tabular metadata was requested from a statement that produced no
    /// tuple table (for example pure DDL).
    NoTupleTable,
    /// An ordinal or row index out of range, or access through a handle
    /// whose owning frame is gone.
    InvalidPosition,
    /// No detached cursor of the given name exists.
    CursorNotFound(Seq<char>),
    /// A mutating statement was attempted in a non-escalated frame.
    ReadOnlyViolation,
    /// The engine value is present but not decodable as the requested type.
    TypeDecodeFailure,
}

/// What an operation of the session layer can fail with.
#[derive(Debug, Clone)]
pub enum Error {
    /// Malformed SQL; the message is surfaced verbatim and never retried.
    SyntaxError(String),
    /// Caller handed the wrong number of arguments; detected before any
    /// engine call.
    ArgumentMismatch { expected: usize, got: usize },
    /// Tabular metadata was requested from a statement that produced no
    /// tuple table (for example pure DDL).
    NoTupleTable,
    /// An ordinal or row index out of range, or access through a handle
    /// whose owning frame is gone.
    InvalidPosition,
    /// No detached cursor of the given name exists.
    CursorNotFound(String),
    /// A mutating statement was attempted in a non-escalated frame.
    ReadOnlyViolation,
    /// The engine value is present but not decodable as the requested type.
    TypeDecodeFailure,
}

impl View for Error {
    type V = ErrorModel;

    open spec fn view(&self) -> ErrorModel {
        match self {
            Error::SyntaxError(m) => ErrorModel::SyntaxError(m@),
            Error::ArgumentMismatch { expected, got } => ErrorModel::ArgumentMismatch {
                expected: *expected as nat,
                got: *got as nat,
            },
            Error::NoTupleTable => ErrorModel::NoTupleTable,
            Error::InvalidPosition => ErrorModel::InvalidPosition,
            Error::CursorNotFound(n) => ErrorModel::CursorNotFound(n@),
            Error::ReadOnlyViolation => ErrorModel::ReadOnlyViolation,
            Error::TypeDecodeFailure => ErrorModel::TypeDecodeFailure,
        }
    }
}

/// A result with its error seen through the spec-level model.
pub open spec fn res_model<A>(r: Result<A, Error>) -> Result<A, ErrorModel> {
    match r {
        Ok(a) => Ok(a),
        Err(e) => Err(e@),
    }
}

impl Error {
    /// A short human-readable description of the failure class.
    pub fn describe(&self) -> (r: &'static str)
        ensures
            r@ == self.describe_spec(),
    {
        match self {
            Error::SyntaxError(_) => "syntax error",
            Error::ArgumentMismatch { .. } => "argument count mismatch",
            Error::NoTupleTable => "no tuple table",
            Error::InvalidPosition => "invalid position",
            Error::CursorNotFound(_) => "cursor not found",
            Error::ReadOnlyViolation => "read-only violation",
            Error::TypeDecodeFailure => "type decode failure",
        }
    }

    /// What [`Error::describe`] returns for each variant.
    pub open spec fn describe_spec(&self) -> Seq<char> {
        match self {
            Error::SyntaxError(_) => "syntax error"@,
            Error::ArgumentMismatch { .. } => "argument count mismatch"@,
            Error::NoTupleTable => "no tuple table"@,
            Error::InvalidPosition => "invalid position"@,
            Error::CursorNotFound(_) => "cursor not found"@,
            Error::ReadOnlyViolation => "read-only violation"@,
            Error::TypeDecodeFailure => "type decode failure"@,
        }
    }
}

} // verus!
