//! Failure kinds.

use vstd::prelude::*;

verus! {

/// The five domain failures.
///
/// `PermissionExpired` and `AccessDenied` belong to the taxonomy but are raised
/// by no operation of this crate: validity is reported as a boolean, and the
/// two kinds are left to callers that build a stricter gate on top of it.
#[derive(Clone, Copy, Debug, PartialEq, Eq, Structural)]
pub enum ChatmateError {
    /// A payment was attempted on an assistant whose access is free.
    NoFeeRequired,
    /// A tip of zero.
    InvalidAmount,
    PermissionExpired,
    AccessDenied,
    /// The declared owner is not the owner stored in the profile.
    InvalidOwner,
}

impl ChatmateError {
    /// The text shown to a caller for each kind.
    pub open spec fn message_text(self) -> Seq<char> {
        match self {
            ChatmateError::NoFeeRequired => "No fee required for this assistant"@,
            ChatmateError::InvalidAmount => "Invalid amount"@,
            ChatmateError::PermissionExpired => "Permission expired"@,
            ChatmateError::AccessDenied => "Access denied"@,
            ChatmateError::InvalidOwner => "Invalid owner"@,
        }
    }

    pub fn message(&self) -> (text: &'static str)
        ensures
            text@ == self.message_text(),
    {
        match self {
            ChatmateError::NoFeeRequired => "No fee required for this assistant",
            ChatmateError::InvalidAmount => "Invalid amount",
            ChatmateError::PermissionExpired => "Permission expired",
            ChatmateError::AccessDenied => "Access denied",
            ChatmateError::InvalidOwner => "Invalid owner",
        }
    }
}

/// Why an operation on the ledger was refused.
///
/// A refused operation leaves every record as it was.
#[derive(Clone, Copy, Debug, PartialEq, Eq, Structural)]
pub enum LedgerError {
    /// One of the domain failures.
    Domain(ChatmateError),
    /// The owner already has a profile.
    DuplicateRecord,
    /// No record is kept under the address that the operation names.
    MissingRecord,
    /// The caller is not the owner stored in the profile it wants to change.
    AccessViolation,
    /// The username does not fit the space a profile has for it.
    UsernameTooLong,
    /// The transfer primitive reported that no currency moved.
    TransferFailed,
    /// The earnings counter cannot hold the sum.
    EarningsOverflow,
}

} // verus!
