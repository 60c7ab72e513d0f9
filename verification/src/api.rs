//! Detail levels, and the envelope and payloads of the exposed surface.

use vstd::prelude::*;
use vstd::string::*;
use crate::error::Error;
use crate::text::same_text;
use crate::user::UserData;

verus! {

/// How much of an entity is disclosed, from nothing (`Cero`) to everything (`Full`).
#[derive(Clone, Copy, Debug, PartialEq, Eq, Structural, PartialOrd, Ord, Hash)]
pub enum DetailLevel {
    Cero,
    Minimal,
    Partial,
    SemiFull,
    Full,
}

impl DetailLevel {
    /// The position of the level in the order of disclosure, 0 to 4.
    pub open spec fn rank(self) -> int {
        match self {
            DetailLevel::Cero => 0,
            DetailLevel::Minimal => 1,
            DetailLevel::Partial => 2,
            DetailLevel::SemiFull => 3,
            DetailLevel::Full => 4,
        }
    }

    /// The position of the level in the order of disclosure, 0 to 4.
    pub fn ordinal(&self) -> (n: i32)
        ensures
            n == self.rank(),
    {
        match self {
            DetailLevel::Cero => 0,
            DetailLevel::Minimal => 1,
            DetailLevel::Partial => 2,
            DetailLevel::SemiFull => 3,
            DetailLevel::Full => 4,
        }
    }
}

/// The level that a stored ordinal stands for; anything outside 0..=4 discloses nothing.
pub open spec fn level_of(level: int) -> DetailLevel {
    if level == 1 {
        DetailLevel::Minimal
    } else if level == 2 {
        DetailLevel::Partial
    } else if level == 3 {
        DetailLevel::SemiFull
    } else if level == 4 {
        DetailLevel::Full
    } else {
        DetailLevel::Cero
    }
}

/// Turns a role's stored ordinal into a detail level.
pub fn get_detail_level(level: i32) -> (detail: DetailLevel)
    ensures
        detail == level_of(level as int),
{
    match level {
        0 => DetailLevel::Cero,
        1 => DetailLevel::Minimal,
        2 => DetailLevel::Partial,
        3 => DetailLevel::SemiFull,
        4 => DetailLevel::Full,
        _ => DetailLevel::Cero,
    }
}

/// Why a request was stopped before it reached a handler.
#[derive(Debug, PartialEq, Eq)]
pub struct MiddlewareError {
    pub code: i32,
    pub message: String,
}

/// What a caller gets for a login: the token, and what it may know of itself.
#[derive(Debug, PartialEq, Eq)]
pub struct LoginResponse {
    pub token: String,
    pub user: UserData,
}

/// What a caller sends to start two-factor enrollment.
#[derive(Debug, PartialEq, Eq)]
pub struct GenerateTFA {
    pub email: String,
    pub id: i32,
}

/// What a caller sends to confirm two-factor enrollment.
#[derive(Debug, PartialEq, Eq)]
pub struct VerifyTFA {
    pub id: i32,
    pub token: i32,
}

/// What a caller sends to switch two-factor authentication off.
#[derive(Debug, PartialEq, Eq)]
pub struct DisableTFA {
    pub id: i32,
}

/// The envelope of every answer: a code, `success` or `error`, a message, and the
/// data where there is any.
#[derive(Debug, PartialEq, Eq)]
pub struct ApiResponse<T> {
    pub code: i32,
    pub status: String,
    pub message: String,
    pub data: Option<T>,
}

/// The transport status that goes with an envelope's `status` text.
pub open spec fn transport_status(status: Seq<char>) -> int {
    if status == "success"@ {
        200
    } else if status == "error"@ {
        500
    } else {
        400
    }
}

impl<T> ApiResponse<T> {
    /// The envelope of a request that succeeded with `data`.
    pub fn success(data: T) -> (response: Self)
        ensures
            response.code == 200,
            response.status@ == "success"@,
            response.message@ == ""@,
            response.data == Some(data),
    {
        ApiResponse {
            code: 200,
            status: String::from_str("success"),
            message: String::from_str(""),
            data: Some(data),
        }
    }

    /// The envelope of a request that failed, with the reason as its message.
    pub fn error(message: &str) -> (response: Self)
        ensures
            response.code == 400,
            response.status@ == "error"@,
            response.message@ == message@,
            response.data is None,
    {
        ApiResponse {
            code: 400,
            status: String::from_str("error"),
            message: String::from_str(message),
            data: None,
        }
    }

    /// The envelope of an outcome: the data of a success, the message of a failure.
    pub fn from_result(outcome: Result<T, Error>) -> (response: Self)
        ensures
            outcome matches Ok(data) ==> response.code == 200 && response.status@ == "success"@
                && response.message@ == ""@ && response.data == Some(data),
            outcome matches Err(e) ==> response.code == 400 && response.status@ == "error"@
                && response.message@ == e.text() && response.data is None,
    {
        match outcome {
            Ok(data) => ApiResponse::success(data),
            Err(e) => ApiResponse::error(e.message()),
        }
    }

    /// The transport status to send the envelope with: 200 for `success`, 500 for
    /// `error`, 400 for any other status text.
    pub fn status_code(&self) -> (code: u16)
        ensures
            code == transport_status(self.status@),
    {
        if same_text(self.status.as_str(), "success") {
            200
        } else if same_text(self.status.as_str(), "error") {
            500
        } else {
            400
        }
    }
}

} // verus!
