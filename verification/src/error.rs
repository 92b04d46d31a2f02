//! The two ways an exchange is turned down.

use vstd::prelude::*;

verus! {

/// Why an exchange was rejected before any instruction was issued.
#[derive(Clone, Copy, Debug, PartialEq, Eq, Structural)]
pub enum ErrorCode {
    /// A supplied account is not the one pinned in the escrow record.
    InvalidAccount,
    /// An offered or declared amount is not the amount the trade requires.
    ExpectedAmountMismatch,
}

impl ErrorCode {
    /// The text shown for the error.
    pub fn message(&self) -> (text: &'static str)
        ensures
            text@ == match *self {
                ErrorCode::InvalidAccount => "Invalid Account Data"@,
                ErrorCode::ExpectedAmountMismatch => "Expected Amount Mismatch"@,
            },
    {
        match self {
            ErrorCode::InvalidAccount => "Invalid Account Data",
            ErrorCode::ExpectedAmountMismatch => "Expected Amount Mismatch",
        }
    }
}

} // verus!
