//! Why an operation on the sale was refused.

use vstd::prelude::*;

verus! {

/// The reasons for which an operation ends without changing the record.
#[derive(Clone, Copy, Debug, PartialEq, Eq, Structural)]
pub enum ErrorCode {
    /// An amount left the range of `u64`.
    Overflow,
    /// The caller is not the administrator that the record names.
    InvalidAdmin,
    /// The sale already has a record.
    AlreadyInitialized,
    /// A transfer was refused by the ledger that was asked to make it.
    TransferRejected,
}

impl ErrorCode {
    /// The text shown for each reason.
    pub open spec fn spec_message(self) -> Seq<char> {
        match self {
            ErrorCode::Overflow => "Arithmetic overflow"@,
            ErrorCode::InvalidAdmin => "Invalid admin"@,
            ErrorCode::AlreadyInitialized => "Already initialized"@,
            ErrorCode::TransferRejected => "Transfer rejected"@,
        }
    }

    /// The text shown for this reason.
    pub fn message(&self) -> (text: &'static str)
        ensures
            text@ == self.spec_message(),
    {
        match self {
            ErrorCode::Overflow => "Arithmetic overflow",
            ErrorCode::InvalidAdmin => "Invalid admin",
            ErrorCode::AlreadyInitialized => "Already initialized",
            ErrorCode::TransferRejected => "Transfer rejected",
        }
    }
}

} // verus!
