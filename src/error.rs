use vstd::prelude::*;
use vstd::string::StringExecFns;
use crate::response::R;

verus! {

pub const STATUS_BAD_REQUEST: u16 = 400;

pub const STATUS_UNAUTHORIZED: u16 = 401;

pub const STATUS_INTERNAL: u16 = 500;

/// Failures of the login flow.
#[derive(Clone, Copy, Debug, PartialEq, Eq, Structural)]
pub enum AuthError {
    WrongCredentials,
    MissingCredentials,
    TokenCreation,
    InvalidToken,
}

/// Failures of token handling, of the store, and of business rules; each
/// carries its description.
#[derive(Clone, Debug)]
pub enum AppError {
    JwtTokenError(String),
    DbError(String),
    BusinessError(String),
}

pub open spec fn auth_error_status(e: AuthError) -> u16 {
    match e {
        AuthError::WrongCredentials => STATUS_UNAUTHORIZED,
        AuthError::MissingCredentials => STATUS_BAD_REQUEST,
        AuthError::TokenCreation => STATUS_INTERNAL,
        AuthError::InvalidToken => STATUS_BAD_REQUEST,
    }
}

pub open spec fn auth_error_message(e: AuthError) -> Seq<char> {
    match e {
        AuthError::WrongCredentials => "Wrong credentials"@,
        AuthError::MissingCredentials => "Missing credentials"@,
        AuthError::TokenCreation => "Token creation error"@,
        AuthError::InvalidToken => "Invalid token"@,
    }
}

impl AuthError {
    /// The status and the body that answer this failure.
    pub fn to_response(&self) -> (r: (u16, R<()>))
        ensures
            r.0 == auth_error_status(*self),
            r.1 matches R::Error(a) && a.code == r.0 && a.message@ == auth_error_message(*self)
                && a.data is None,
    {
        let (status, message) = match self {
            AuthError::WrongCredentials => (STATUS_UNAUTHORIZED, "Wrong credentials"),
            AuthError::MissingCredentials => (STATUS_BAD_REQUEST, "Missing credentials"),
            AuthError::TokenCreation => (STATUS_INTERNAL, "Token creation error"),
            AuthError::InvalidToken => (STATUS_BAD_REQUEST, "Invalid token"),
        };
        let body = R::<()>::error_with_code_and_message(status, String::from_str(message));
        (status, body)
    }
}

impl AppError {
    /// The status that answers this failure: unauthorized for token
    /// failures, internal error otherwise.
    pub open spec fn status(&self) -> u16 {
        match self {
            AppError::JwtTokenError(_) => STATUS_UNAUTHORIZED,
            AppError::DbError(_) => STATUS_INTERNAL,
            AppError::BusinessError(_) => STATUS_INTERNAL,
        }
    }

    pub open spec fn text(&self) -> Seq<char> {
        match self {
            AppError::JwtTokenError(s) => s@,
            AppError::DbError(s) => s@,
            AppError::BusinessError(s) => s@,
        }
    }

    /// The status and the body that answer this failure; the body's message
    /// is the failure's description.
    pub fn to_response(self) -> (r: (u16, R<()>))
        ensures
            r.0 == self.status(),
            r.1 matches R::Error(a) && a.code == r.0 && a.message@ == self.text() && a.data is None,
    {
        let (status, message) = match self {
            AppError::DbError(e) => (STATUS_INTERNAL, e),
            AppError::BusinessError(e) => (STATUS_INTERNAL, e),
            AppError::JwtTokenError(e) => (STATUS_UNAUTHORIZED, e),
        };
        let body = R::<()>::error_with_code_and_message(status, message);
        (status, body)
    }
}

} // verus!
