//! The execution-result representation: a computed value, no value by
//! design, or a typed execution-time exception.

use vstd::prelude::*;

verus! {

/// Outcome of executing one instruction.  `Empty` (the instruction computes
/// nothing by design, as branches and stores do) and `Exception` (the
/// computation failed) are distinct observable states, never conflated.
#[derive(Debug)]
pub enum ExecResult<T> {
    Success(T),
    Empty,
    Exception(ExecError),
}

impl<T> ExecResult<T> {
    /// Take the computed value out of a `Success` result.
    pub fn unwrap(self) -> (r: T)
        requires
            self is Success,
        ensures
            r == self->Success_0,
    {
        match self {
            ExecResult::Success(t) => t,
            _ => unreached(),
        }
    }
}

/// An execution-time domain error, carrying its kind and a short message
/// naming the operation for the caller to decide recovery.
#[derive(Debug, Clone, Copy, PartialEq, Eq)]
pub struct ExecError {
    pub kind: ErrorKind,
    pub error: &'static str,
}

impl ExecError {
    pub fn new(kind: ErrorKind, error: &'static str) -> (r: Self)
        ensures
            r.kind == kind,
            r.error == error,
    {
        ExecError { kind, error }
    }

    /// A human-readable description of the error kind.
    pub fn description(&self) -> (r: &'static str)
        ensures
            self.kind == ErrorKind::Overflow ==> r@ == "checked operation overflowed"@,
    {
        match self.kind {
            ErrorKind::Overflow => "checked operation overflowed",
        }
    }
}

/// The kinds of execution-time domain error.
#[derive(Debug, Copy, PartialEq, Eq, Clone)]
pub enum ErrorKind {
    Overflow,
}

} // verus!
