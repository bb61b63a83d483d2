//! Failures that the library reports, and the threshold check that
//! produces one of them.

use vstd::prelude::*;

verus! {

/// The ways in which an operation of this library can fail.
#[derive(Clone, Copy, Debug, PartialEq, Eq, Structural)]
pub enum ErrorKind {
    /// A quotient was asked for with a divisor of exactly zero.
    DivisionByZero,
    /// A value did not exceed the threshold.
    OperationFailed,
}

/// A value passes only if it is strictly greater than this.
pub const THRESHOLD: i32 = 20;

/// The value that `risky_operation` works on.
pub const FIXED_VALUE: i32 = 42;

/// What `check_threshold` returns for `value`.
pub open spec fn threshold_outcome(value: i32) -> Result<i32, ErrorKind> {
    if value > THRESHOLD {
        Ok(value)
    } else {
        Err(ErrorKind::OperationFailed)
    }
}

impl ErrorKind {
    /// The text of the message that goes with each failure.
    pub open spec fn message_text(self) -> Seq<char> {
        match self {
            ErrorKind::DivisionByZero => "Division by zero"@,
            ErrorKind::OperationFailed => "Value too small"@,
        }
    }

    /// The human-readable message of this failure.
    pub fn message(&self) -> (text: String)
        ensures
            text@ == self.message_text(),
    {
        match self {
            ErrorKind::DivisionByZero => "Division by zero".to_owned(),
            ErrorKind::OperationFailed => "Value too small".to_owned(),
        }
    }
}

/// Hands `value` back if it exceeds the threshold, and fails with
/// `OperationFailed` otherwise.
pub fn check_threshold(value: i32) -> (outcome: Result<i32, ErrorKind>)
    ensures
        outcome == threshold_outcome(value),
{
    if value > THRESHOLD {
        Ok(value)
    } else {
        Err(ErrorKind::OperationFailed)
    }
}

/// Runs the threshold check on the fixed value, which passes it.
pub fn risky_operation() -> (outcome: Result<i32, ErrorKind>)
    ensures
        outcome == threshold_outcome(FIXED_VALUE),
        outcome == Ok::<i32, ErrorKind>(42i32),
{
    check_threshold(FIXED_VALUE)
}

} // verus!
