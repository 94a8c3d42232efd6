use room_booking_core::auth::{
    authorize, authorize_request, claims_accepted_at, extract_bearer_token, issue_claims,
    make_claims, parse_role, parse_subject, AuthOutcome, Claims, Role, TOKEN_TTL_SECONDS,
};

#[test]
fn subject_parsing_accepts_plain_decimal_ids() {
    assert_eq!(parse_subject(b"7"), Some(7));
    assert_eq!(parse_subject(b"2147483647"), Some(i32::MAX));
    assert_eq!(parse_subject(b"0042"), Some(42));
    assert_eq!(parse_subject(b"2147483648"), None);
    assert_eq!(parse_subject(b"12345678901"), None);
    assert_eq!(parse_subject(b""), None);
    assert_eq!(parse_subject(b"-7"), None);
    assert_eq!(parse_subject(b"7a"), None);
}

#[test]
fn role_parsing_knows_exactly_two_names() {
    assert_eq!(parse_role(b"user"), Some(Role::User));
    assert_eq!(parse_role(b"admin"), Some(Role::Admin));
    assert_eq!(parse_role(b"root"), None);
    assert_eq!(parse_role(b"User"), None);
    assert_eq!(parse_role(b""), None);
}

#[test]
fn claims_carry_a_one_day_window() {
    let claims = make_claims(7, Role::User, 1_700_000_000);
    assert_eq!(claims.sub, 7);
    assert!(matches!(claims.role, Role::User));
    assert_eq!(claims.iat, 1_700_000_000);
    assert_eq!(claims.exp, 1_700_000_000 + 86_400);
    assert_eq!(TOKEN_TTL_SECONDS, 86_400);
}

#[test]
fn issued_claims_use_the_wall_clock() {
    let claims = issue_claims(9, Role::Admin).expect("clock fits");
    assert_eq!(claims.sub, 9);
    assert!(matches!(claims.role, Role::Admin));
    assert_eq!(claims.exp - claims.iat, TOKEN_TTL_SECONDS);
}

#[test]
fn freshness_respects_the_leeway() {
    let claims = make_claims(7, Role::User, 1_000);
    let exp = claims.exp;
    assert!(claims_accepted_at(&claims, exp - 1, 0));
    assert!(!claims_accepted_at(&claims, exp, 0));
    assert!(claims_accepted_at(&claims, exp + 59, 60));
    assert!(!claims_accepted_at(&claims, exp + 60, 60));
}

#[test]
fn role_check_matches_exactly() {
    let user = make_claims(7, Role::User, 1_000);
    assert!(authorize(&user, Role::User));
    assert!(!authorize(&user, Role::Admin));
    assert_eq!(Role::User.as_str(), "user");
    assert_eq!(Role::Admin.as_str(), "admin");
}

#[test]
fn bearer_token_extraction() {
    let token = extract_bearer_token(b"Bearer abc.def.ghi").expect("scheme matches");
    assert_eq!(token, b"abc.def.ghi".to_vec());

    let empty = extract_bearer_token(b"Bearer ").expect("empty token still matches the scheme");
    assert!(empty.is_empty());

    assert!(extract_bearer_token(b"Basic abc").is_none());
    assert!(extract_bearer_token(b"Bearer").is_none());
    assert!(extract_bearer_token(b"").is_none());
    assert!(extract_bearer_token(b"bearer abc").is_none());
}

#[test]
fn middleware_verdicts_cover_every_case() {
    let user_claims = Some(make_claims(7, Role::User, 1_000));
    assert!(matches!(
        authorize_request(false, None, Role::User),
        AuthOutcome::MissingToken
    ));
    assert!(matches!(
        authorize_request(true, None, Role::User),
        AuthOutcome::InvalidToken
    ));
    assert!(matches!(
        authorize_request(true, user_claims, Role::Admin),
        AuthOutcome::WrongRole
    ));
    assert!(matches!(
        authorize_request(true, user_claims, Role::User),
        AuthOutcome::Authorized
    ));
}

#[test]
fn middleware_status_codes() {
    assert_eq!(AuthOutcome::Authorized.http_status(), None);
    assert_eq!(AuthOutcome::MissingToken.http_status(), Some(401));
    assert_eq!(AuthOutcome::InvalidToken.http_status(), Some(401));
    assert_eq!(AuthOutcome::WrongRole.http_status(), Some(403));
}

#[test]
fn claims_survive_a_token_round_trip() {
    let claims = Claims { sub: 7, role: Role::User, exp: 2_000_000_000, iat: 1_999_913_600 };
    let key = jsonwebtoken::EncodingKey::from_secret(b"a-test-signing-key");
    let header = jsonwebtoken::Header::new(jsonwebtoken::Algorithm::HS512);
    let mut wire = serde_json::Map::new();
    wire.insert("sub".to_string(), serde_json::Value::String(claims.sub.to_string()));
    wire.insert("role".to_string(), serde_json::Value::String(claims.role.as_str().to_string()));
    wire.insert("exp".to_string(), serde_json::Value::from(claims.exp));
    wire.insert("iat".to_string(), serde_json::Value::from(claims.iat));
    let wire = serde_json::Value::Object(wire);
    let token = jsonwebtoken::encode(&header, &wire, &key).expect("encodes");

    let decoding = jsonwebtoken::DecodingKey::from_secret(b"a-test-signing-key");
    let mut validation = jsonwebtoken::Validation::new(jsonwebtoken::Algorithm::HS512);
    validation.validate_exp = false;
    let decoded = jsonwebtoken::decode::<serde_json::Value>(&token, &decoding, &validation)
        .expect("decodes");
    assert_eq!(decoded.claims["sub"], "7");
    assert_eq!(decoded.claims["role"], "user");
    assert_eq!(decoded.claims["exp"], claims.exp);
}
