//! The error taxonomy that every service operation resolves to.
//!
//! Infrastructure failures (hashing, token signing, storage) are deliberately
//! collapsed into `Internal`, and a failed login never says whether the
//! username exists or the password was wrong.

use crate::response::ApiResponse;
use vstd::prelude::*;
use vstd::string::StringExecFns;

verus! {

/// One error kind per user-visible failure class.
#[derive(Debug, Clone, PartialEq, Eq)]
pub enum AppError {
    /// Malformed caller input; carries a short description.
    BadRequest(String),
    /// The addressed resource does not exist for this caller.
    NotFound,
    /// Credential verification failed (unknown username or wrong password).
    PasswordError,
    /// Missing, malformed or expired session token.
    Unauthorized,
    /// Hashing, token or storage infrastructure failure; intentionally generic.
    Internal,
    /// A required environment variable is not set (startup only).
    EnvVar(String),
    /// Configuration could not be parsed (startup only).
    ConfigParse(String),
}

/// The HTTP-equivalent status for each error kind.
pub open spec fn status_of(e: AppError) -> u16 {
    match e {
        AppError::BadRequest(_) => 400u16,
        AppError::NotFound => 404u16,
        AppError::PasswordError => 401u16,
        AppError::Unauthorized => 401u16,
        _ => 500u16,
    }
}

/// The message that the transport layer shows for an error.
pub open spec fn message_of(e: AppError) -> Seq<char> {
    match e {
        AppError::BadRequest(s) => "bad request: "@ + s@,
        AppError::NotFound => "resource not found"@,
        AppError::PasswordError => "wrong username or password"@,
        AppError::Unauthorized => "unauthorized"@,
        AppError::Internal => "internal error, try again later"@,
        AppError::EnvVar(s) => "environment variable not set: "@ + s@,
        AppError::ConfigParse(s) => "configuration parse failure: "@ + s@,
    }
}

impl AppError {
    /// The HTTP-equivalent status that the transport maps this error to.
    pub fn status_code(&self) -> (code: u16)
        ensures
            code == status_of(*self),
    {
        match self {
            AppError::BadRequest(_) => 400,
            AppError::NotFound => 404,
            AppError::PasswordError => 401,
            AppError::Unauthorized => 401,
            _ => 500,
        }
    }

    /// The short user-visible message for this error.
    pub fn message(&self) -> (msg: String)
        ensures
            msg@ == message_of(*self),
    {
        match self {
            AppError::BadRequest(s) => "bad request: ".to_owned().concat(s.as_str()),
            AppError::NotFound => "resource not found".to_owned(),
            AppError::PasswordError => "wrong username or password".to_owned(),
            AppError::Unauthorized => "unauthorized".to_owned(),
            AppError::Internal => "internal error, try again later".to_owned(),
            AppError::EnvVar(s) => "environment variable not set: ".to_owned().concat(
                s.as_str(),
            ),
            AppError::ConfigParse(s) => "configuration parse failure: ".to_owned().concat(
                s.as_str(),
            ),
        }
    }

    /// The response envelope that the transport renders for this error:
    /// the status as the code, the message, and no data.
    pub fn to_envelope(&self) -> (r: ApiResponse<()>)
        ensures
            r.code == status_of(*self) as i32,
            r.message@ == message_of(*self),
            r.data is None,
    {
        let code = self.status_code();
        ApiResponse::error(code as i32, self.message())
    }
}

} // verus!
