use vstd::prelude::*;
use vstd::string::{StrSliceExecFns, StringExecFns};
use vstd::utf8::encode_utf8;
use crate::crypto_util::{bcrypt_check, bcrypt_verify};
use crate::error::{AppError, AuthError, STATUS_UNAUTHORIZED};
use crate::jwt_util::{JwtToken, TOKEN_LIFETIME_SECS, audience_text, issuer_text, subject_text};
use crate::user::User;

verus! {

pub open spec fn has_prefix(s: Seq<char>, p: Seq<char>) -> bool {
    p.len() <= s.len() && s.subrange(0, p.len() as int) == p
}

/// `s` with the prefix `p` taken off, or `s` itself where it does not start
/// with `p`.
pub open spec fn without_prefix(s: Seq<char>, p: Seq<char>) -> Seq<char> {
    if has_prefix(s, p) {
        s.subrange(p.len() as int, s.len() as int)
    } else {
        s
    }
}

pub open spec fn login_path() -> Seq<char> {
    "/login"@
}

pub open spec fn bearer_prefix() -> Seq<char> {
    "Bearer "@
}

pub open spec fn api_prefix() -> Seq<char> {
    "/api"@
}

pub open spec fn missing_header_text() -> Seq<char> {
    "请求头缺少 Authorization 字段"@
}

pub open spec fn token_failed_prefix() -> Seq<char> {
    "Token 校验失败: "@
}

pub open spec fn unauthorized_prefix() -> Seq<char> {
    "用户还没有授权url:"@
}

pub open spec fn bad_format_prefix() -> Seq<char> {
    "token格式错误:"@
}

pub open spec fn unknown_user_prefix() -> Seq<char> {
    "用户不存在:"@
}

/// Whether some permission, with any leading "/api" taken off, is `path`.
pub open spec fn permitted(permissions: Seq<String>, path: Seq<char>) -> bool {
    exists|i: int|
        0 <= i < permissions.len() && without_prefix(#[trigger] permissions[i]@, api_prefix())
            == path
}

/// Whether `given` opens an account whose stored password is `stored`:
/// equal to it, or matching it as a bcrypt hash.
pub open spec fn credentials_match(stored: Seq<char>, given: Seq<char>) -> bool {
    stored == given || bcrypt_check(encode_utf8(given), stored) == Some(true)
}

fn starts_with(s: &str, prefix: &str) -> (r: bool)
    ensures
        r == has_prefix(s@, prefix@),
{
    let n = prefix.unicode_len();
    if n > s.unicode_len() {
        return false;
    }
    let mut i: usize = 0;
    while i < n
        invariant
            n == prefix@.len(),
            n <= s@.len(),
            0 <= i <= n,
            forall|j: int| 0 <= j < i ==> s@[j] == prefix@[j],
        decreases n - i,
    {
        if s.get_char(i) != prefix.get_char(i) {
            assert(s@.subrange(0, n as int)[i as int] != prefix@[i as int]);
            return false;
        }
        i = i + 1;
    }
    assert(s@.subrange(0, n as int) =~= prefix@);
    true
}

fn same_text(a: &str, b: &str) -> (r: bool)
    ensures
        r == (a@ == b@),
{
    let equal = a.unicode_len() == b.unicode_len() && starts_with(a, b);
    proof {
        assert(a@ =~= a@.subrange(0, a@.len() as int));
    }
    equal
}

fn strip_prefix_or_keep<'a>(s: &'a str, prefix: &str) -> (r: &'a str)
    ensures
        r@ == without_prefix(s@, prefix@),
{
    if starts_with(s, prefix) {
        s.substring_char(prefix.unicode_len(), s.unicode_len())
    } else {
        s
    }
}

/// Whether some permission of `permissions`, with any leading "/api" taken
/// off, is `path`.
pub fn is_permitted(permissions: &Vec<String>, path: &str) -> (r: bool)
    ensures
        r == permitted(permissions@, path@),
{
    let mut i: usize = 0;
    while i < permissions.len()
        invariant
            0 <= i <= permissions@.len(),
            forall|j: int|
                0 <= j < i ==> without_prefix(#[trigger] permissions@[j]@, api_prefix()) != path@,
        decreases permissions@.len() - i,
    {
        let stripped = strip_prefix_or_keep(permissions[i].as_str(), "/api");
        if same_text(stripped, path) {
            return true;
        }
        i = i + 1;
    }
    false
}

/// The first step of the request gate, before any token is verified.
#[derive(Debug)]
pub enum GateStep {
    /// The route needs no token: forward the request as it is.
    Pass,
    /// Verify this token, then decide with `auth_decide`.
    Verify(String),
    /// Answer with this status and message and stop.
    Reject(u16, String),
}

/// The final step of the request gate.
#[derive(Debug)]
pub enum GateDecision {
    /// Forward the request on behalf of this user id.
    Forward(i64),
    /// Answer with this status and message and stop.
    Reject(u16, String),
}

/// Starts authorizing a request to `path` whose Authorization header is
/// `authorization`: the login route passes, a missing header is refused,
/// and otherwise the bearer token is handed on for verification.
pub fn auth_gate(path: &str, authorization: Option<&str>) -> (r: GateStep)
    ensures
        path@ == login_path() ==> r is Pass,
        path@ != login_path() && authorization is None ==> (r matches GateStep::Reject(c, m)
            && c == STATUS_UNAUTHORIZED && m@ == missing_header_text()),
        path@ != login_path() && authorization is Some ==> (r matches GateStep::Verify(t)
            && t@ == without_prefix(authorization.unwrap()@, bearer_prefix())),
{
    if same_text(path, "/login") {
        return GateStep::Pass;
    }
    match authorization {
        None => GateStep::Reject(
            STATUS_UNAUTHORIZED,
            String::from_str("请求头缺少 Authorization 字段"),
        ),
        Some(h) => GateStep::Verify(String::from_str(strip_prefix_or_keep(h, "Bearer "))),
    }
}

/// Finishes authorizing a request to `path`, given the outcome of verifying
/// its token: a failed verification is refused with its description, a
/// token without a permission for `path` is refused, and otherwise the
/// request goes on for the token's user.
pub fn auth_decide(path: &str, verified: Result<JwtToken, AppError>) -> (r: GateDecision)
    ensures
        verified matches Err(e) ==> r matches GateDecision::Reject(c, m) && c
            == STATUS_UNAUTHORIZED && m@ == token_failed_prefix() + (match e {
            AppError::JwtTokenError(s) => s@,
            _ => "no math error"@,
        }),
        verified is Ok && permitted(verified->Ok_0.permissions@, path@) ==> r
            == GateDecision::Forward(verified->Ok_0.id),
        verified is Ok && !permitted(verified->Ok_0.permissions@, path@) ==> (r matches GateDecision::Reject(c, m)
            && c == STATUS_UNAUTHORIZED && m@ == unauthorized_prefix() + path@),
{
    match verified {
        Err(e) => {
            let reason = match e {
                AppError::JwtTokenError(s) => s,
                _ => String::from_str("no math error"),
            };
            GateDecision::Reject(
                STATUS_UNAUTHORIZED,
                String::from_str("Token 校验失败: ").concat(reason.as_str()),
            )
        },
        Ok(t) => {
            if is_permitted(&t.permissions, path) {
                GateDecision::Forward(t.id)
            } else {
                GateDecision::Reject(
                    STATUS_UNAUTHORIZED,
                    String::from_str("用户还没有授权url:").concat(path),
                )
            }
        },
    }
}

/// The user on whose behalf a request acts.
#[derive(Debug)]
pub struct CurrentUser(pub User);

impl CurrentUser {
    /// The token of an Authorization header, which must be present and
    /// start with "Bearer ".
    pub fn bearer_token(authorization: Option<&str>) -> (r: Result<String, AppError>)
        ensures
            authorization is None ==> (r matches Err(AppError::JwtTokenError(m)) && m@
                == missing_header_text()),
            authorization is Some && !has_prefix(authorization->Some_0@, bearer_prefix()) ==> (
            r matches Err(AppError::JwtTokenError(m)) && m@ == bad_format_prefix()
                + authorization->Some_0@),
            authorization is Some && has_prefix(authorization->Some_0@, bearer_prefix()) ==> (
            r matches Ok(t) && t@ == without_prefix(authorization->Some_0@, bearer_prefix())),
    {
        match authorization {
            None => Err(AppError::JwtTokenError(String::from_str("请求头缺少 Authorization 字段"))),
            Some(h) => {
                if starts_with(h, "Bearer ") {
                    Ok(String::from_str(strip_prefix_or_keep(h, "Bearer ")))
                } else {
                    Err(AppError::JwtTokenError(String::from_str("token格式错误:").concat(h)))
                }
            },
        }
    }

    /// The current user, given the user that the lookup by `username` found.
    pub fn resolve(username: &str, found: Option<User>) -> (r: Result<CurrentUser, AppError>)
        ensures
            found is None ==> (r matches Err(AppError::JwtTokenError(m)) && m@
                == unknown_user_prefix() + username@),
            found is Some ==> (r matches Ok(c) && c.0 == found->Some_0),
    {
        match found {
            None => Err(AppError::JwtTokenError(String::from_str("用户不存在:").concat(username))),
            Some(u) => Ok(CurrentUser(u)),
        }
    }
}

/// Refuses a login whose user name or password is empty.
pub fn login_precheck(username: &str, password: &str) -> (r: Result<(), AuthError>)
    ensures
        r is Err <==> username@.len() == 0 || password@.len() == 0,
        r matches Err(e) ==> e == AuthError::MissingCredentials,
{
    if username.is_empty() || password.is_empty() {
        Err(AuthError::MissingCredentials)
    } else {
        Ok(())
    }
}

/// Checks `password` against the user that the lookup by name found: an
/// unknown user and a password that matches neither the stored text nor
/// the stored bcrypt hash both give `WrongCredentials`.
pub fn check_credentials(found: Option<User>, password: &str) -> (r: Result<User, AuthError>)
    ensures
        found is None ==> r == Err::<User, AuthError>(AuthError::WrongCredentials),
        found is Some && credentials_match(found->Some_0.password@, password@) ==> r == Ok::<
            User,
            AuthError,
        >(found->Some_0),
        found is Some && !credentials_match(found->Some_0.password@, password@) ==> r == Err::<
            User,
            AuthError,
        >(AuthError::WrongCredentials),
{
    let user = match found {
        Some(u) => u,
        None => {
            return Err(AuthError::WrongCredentials);
        },
    };
    if same_text(user.password.as_str(), password) {
        return Ok(user);
    }
    match bcrypt_verify(password, user.password.as_str()) {
        Ok(true) => Ok(user),
        _ => Err(AuthError::WrongCredentials),
    }
}

/// The claims issued at `now` to a user who logged in; a user without an
/// identifier cannot be given a token.
pub fn login_claims(user: &User, now: usize) -> (r: Result<JwtToken, AuthError>)
    requires
        now + TOKEN_LIFETIME_SECS <= usize::MAX,
    ensures
        user.user_id is None ==> r == Err::<JwtToken, AuthError>(AuthError::TokenCreation),
        user.user_id is Some ==> (r matches Ok(t) && Some(t.id) == user.user_id && t.username@
            == user.username@ && t.permissions@.len() == 0 && t.aud@ == audience_text() && t.sub@
            == subject_text() && t.iss@ == issuer_text() && t.jti@ == "ignore"@ && t.iat == now
            && t.nbf == now && t.exp == now + TOKEN_LIFETIME_SECS),
{
    match user.user_id {
        None => Err(AuthError::TokenCreation),
        Some(id) => Ok(JwtToken::new(id, user.username.as_str(), Vec::new(), now)),
    }
}

/// The cache key under which a user's issued token is kept.
pub fn token_cache_key(username: &str) -> (r: String)
    ensures
        r@ == "token::"@ + username@,
{
    String::from_str("token::").concat(username)
}

} // verus!
