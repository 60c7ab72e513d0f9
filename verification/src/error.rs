//! The failures that the library reports to its callers.

use vstd::prelude::*;

verus! {

/// Why a request did not succeed.
#[derive(Clone, Copy, Debug, PartialEq, Eq, Structural, Hash)]
pub enum Error {
    /// The query parameters do not describe a filter.
    InvalidFilterSpec,
    /// The caller could not be authenticated.
    Unauthorized,
    /// The caller is known but may not do what was asked.
    Denied,
    /// No record matched.
    NotFound,
    /// The requested window is already taken.
    SlotUnavailable,
    /// The store refused a write that breaks one of its constraints.
    ConstraintError,
    /// A second factor is needed and none was supplied.
    TfaRequired,
    /// Two-factor authentication is already switched on.
    AlreadyEnabled,
    /// Two-factor authentication is not switched on.
    NotEnabled,
    /// The one-time code is not the one expected now.
    InvalidToken,
    /// The password does not belong to the account.
    InvalidCredentials,
    /// The store could not be reached or did not answer in time.
    StorageUnavailable,
}

impl Error {
    /// The text shown to the caller for this failure.
    pub open spec fn text(self) -> Seq<char> {
        match self {
            Error::InvalidFilterSpec => "Invalid query params"@,
            Error::Unauthorized => "Unauthorized"@,
            Error::Denied => "Forbidden"@,
            Error::NotFound => "Not found"@,
            Error::SlotUnavailable => "Dates already booked"@,
            Error::ConstraintError => "Constraint violated"@,
            Error::TfaRequired => "TFA required"@,
            Error::AlreadyEnabled => "TFA already enabled"@,
            Error::NotEnabled => "TFA not enabled"@,
            Error::InvalidToken => "Invalid token"@,
            Error::InvalidCredentials => "Invalid credentials"@,
            Error::StorageUnavailable => "Storage unavailable"@,
        }
    }

    /// The text shown to the caller for this failure.
    pub fn message(&self) -> (msg: &'static str)
        ensures
            msg@ == self.text(),
    {
        match self {
            Error::InvalidFilterSpec => "Invalid query params",
            Error::Unauthorized => "Unauthorized",
            Error::Denied => "Forbidden",
            Error::NotFound => "Not found",
            Error::SlotUnavailable => "Dates already booked",
            Error::ConstraintError => "Constraint violated",
            Error::TfaRequired => "TFA required",
            Error::AlreadyEnabled => "TFA already enabled",
            Error::NotEnabled => "TFA not enabled",
            Error::InvalidToken => "Invalid token",
            Error::InvalidCredentials => "Invalid credentials",
            Error::StorageUnavailable => "Storage unavailable",
        }
    }
}

} // verus!
