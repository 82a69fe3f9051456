use vstd::prelude::*;
use vstd::string::StringExecFns;
use crate::error::AppError;

verus! {

/// Seconds for which an issued token stays valid.
pub const TOKEN_LIFETIME_SECS: usize = 1800000;

/// Why decoding a token failed, as the token codec reports it.
#[derive(Clone, Copy, Debug, PartialEq, Eq, Structural)]
pub enum TokenErrorKind {
    InvalidToken,
    InvalidIssuer,
    ExpiredSignature,
    InvalidSubject,
    InvalidAudience,
    MissingClaim,
    Other,
}

/// The claims of an identity token.
#[derive(Clone, Debug)]
pub struct JwtToken {
    pub id: i64,
    pub username: String,
    pub permissions: Vec<String>,
    pub aud: String,
    pub exp: usize,
    pub iat: usize,
    pub iss: String,
    pub nbf: usize,
    pub sub: String,
    pub jti: String,
}

pub open spec fn audience_text() -> Seq<char> {
    "rust_admin"@
}

pub open spec fn subject_text() -> Seq<char> {
    "rust_admin"@
}

pub open spec fn issuer_text() -> Seq<char> {
    "koobe"@
}

pub open spec fn expired_text() -> Seq<char> {
    "token 已经超时了"@
}

/// The description carried by the error that a failed decode becomes.
pub open spec fn token_error_text(k: TokenErrorKind) -> Seq<char> {
    match k {
        TokenErrorKind::InvalidToken => "InvalidToken"@,
        TokenErrorKind::InvalidIssuer => "InvalidIssuer"@,
        TokenErrorKind::ExpiredSignature => expired_text(),
        _ => "create token error"@,
    }
}

impl JwtToken {
    /// Claims for `user_id` and `username`, issued at `now` (Unix seconds),
    /// valid from `now` and expiring a fixed lifetime later.
    pub fn new(user_id: i64, username: &str, permissions: Vec<String>, now: usize) -> (r: JwtToken)
        requires
            now + TOKEN_LIFETIME_SECS <= usize::MAX,
        ensures
            r.id == user_id,
            r.username@ == username@,
            r.permissions == permissions,
            r.aud@ == audience_text(),
            r.sub@ == subject_text(),
            r.iss@ == issuer_text(),
            r.jti@ == "ignore"@,
            r.iat == now,
            r.nbf == now,
            r.exp == now + TOKEN_LIFETIME_SECS,
    {
        JwtToken {
            id: user_id,
            username: String::from_str(username),
            permissions,
            aud: String::from_str("rust_admin"),
            exp: now + TOKEN_LIFETIME_SECS,
            iat: now,
            iss: String::from_str("koobe"),
            nbf: now,
            sub: String::from_str("rust_admin"),
            jti: String::from_str("ignore"),
        }
    }

    /// Turns the outcome of decoding a token into the verified claims or a
    /// token error: the claims come back untouched, an expired token gets
    /// its own description.
    pub fn verify_decoded(decoded: Result<JwtToken, TokenErrorKind>) -> (r: Result<
        JwtToken,
        AppError,
    >)
        ensures
            decoded is Ok <==> r is Ok,
            decoded matches Ok(c) ==> r == Ok::<JwtToken, AppError>(c),
            decoded matches Err(k) ==> r matches Err(AppError::JwtTokenError(m)) && m@
                == token_error_text(k),
    {
        match decoded {
            Ok(c) => Ok(c),
            Err(k) => {
                let text = match k {
                    TokenErrorKind::InvalidToken => "InvalidToken",
                    TokenErrorKind::InvalidIssuer => "InvalidIssuer",
                    TokenErrorKind::ExpiredSignature => "token 已经超时了",
                    _ => "create token error",
                };
                Err(AppError::JwtTokenError(String::from_str(text)))
            },
        }
    }

    /// The user name of a decoded token, or the token error.
    pub fn get_username(decoded: Result<JwtToken, TokenErrorKind>) -> (r: Result<String, AppError>)
        ensures
            decoded is Ok <==> r is Ok,
            decoded matches Ok(c) ==> r matches Ok(u) && u@ == c.username@,
            decoded matches Err(k) ==> r matches Err(AppError::JwtTokenError(m)) && m@
                == token_error_text(k),
    {
        match Self::verify_decoded(decoded) {
            Ok(c) => Ok(c.username),
            Err(e) => Err(e),
        }
    }
}

/// A token rejected for expiry is reported with a description that no other
/// decoding failure carries.
pub proof fn lemma_expiry_is_distinguished(k: TokenErrorKind)
    requires
        k != TokenErrorKind::ExpiredSignature,
    ensures
        token_error_text(k) != token_error_text(TokenErrorKind::ExpiredSignature),
{
    reveal_strlit("token 已经超时了");
    reveal_strlit("InvalidToken");
    reveal_strlit("InvalidIssuer");
    reveal_strlit("create token error");
    assert(expired_text()[0] == 't');
    assert(expired_text().len() != "InvalidToken"@.len());
    assert(expired_text().len() != "InvalidIssuer"@.len());
    assert(expired_text().len() != "create token error"@.len());
}

} // verus!
