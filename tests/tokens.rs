use rust_admin::error::AppError;
use rust_admin::jwt_util::{JwtToken, TokenErrorKind, TOKEN_LIFETIME_SECS};

fn claims() -> JwtToken {
    JwtToken::new(42, "alice", vec!["/pet".to_string(), "/api/user".to_string()], 1_700_000_000)
}

#[test]
fn new_token_carries_identity_and_fixed_claims() {
    let t = claims();
    assert_eq!(t.id, 42);
    assert_eq!(t.username, "alice");
    assert_eq!(t.permissions, vec!["/pet".to_string(), "/api/user".to_string()]);
    assert_eq!(t.aud, "rust_admin");
    assert_eq!(t.sub, "rust_admin");
    assert_eq!(t.iss, "koobe");
    assert_eq!(t.jti, "ignore");
    assert_eq!(t.iat, 1_700_000_000);
    assert_eq!(t.nbf, 1_700_000_000);
    assert_eq!(t.exp, 1_700_000_000 + 1_800_000);
    assert_eq!(TOKEN_LIFETIME_SECS, 1_800_000);
}

fn jwt_message(r: Result<JwtToken, AppError>) -> String {
    match r {
        Err(AppError::JwtTokenError(m)) => m,
        other => panic!("unexpected {other:?}"),
    }
}

#[test]
fn verified_claims_come_back_unchanged() {
    let t = JwtToken::verify_decoded(Ok(claims())).unwrap();
    assert_eq!(t.id, 42);
    assert_eq!(t.username, "alice");
    assert_eq!(t.permissions.len(), 2);
}

#[test]
fn expired_token_has_its_own_error() {
    let expired = jwt_message(JwtToken::verify_decoded(Err(TokenErrorKind::ExpiredSignature)));
    assert_eq!(expired, "token 已经超时了");
    for k in [
        TokenErrorKind::InvalidToken,
        TokenErrorKind::InvalidIssuer,
        TokenErrorKind::InvalidSubject,
        TokenErrorKind::InvalidAudience,
        TokenErrorKind::MissingClaim,
        TokenErrorKind::Other,
    ] {
        assert_ne!(jwt_message(JwtToken::verify_decoded(Err(k))), expired);
    }
}

#[test]
fn decode_failures_map_to_messages() {
    assert_eq!(jwt_message(JwtToken::verify_decoded(Err(TokenErrorKind::InvalidToken))), "InvalidToken");
    assert_eq!(jwt_message(JwtToken::verify_decoded(Err(TokenErrorKind::InvalidIssuer))), "InvalidIssuer");
    assert_eq!(jwt_message(JwtToken::verify_decoded(Err(TokenErrorKind::InvalidSubject))), "create token error");
    assert_eq!(jwt_message(JwtToken::verify_decoded(Err(TokenErrorKind::InvalidAudience))), "create token error");
}

#[test]
fn username_of_decoded_token() {
    assert_eq!(JwtToken::get_username(Ok(claims())).unwrap(), "alice");
    match JwtToken::get_username(Err(TokenErrorKind::ExpiredSignature)) {
        Err(AppError::JwtTokenError(m)) => assert_eq!(m, "token 已经超时了"),
        other => panic!("unexpected {other:?}"),
    }
}
