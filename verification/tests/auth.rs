use appnut::auth::{
    bearer_token_of, AllowAll, AuthorizationHeader, Authenticator, DenyAll, JwtAuthenticator,
    ServiceError,
};

const TEST_SECRET: &str = "test-jwt-secret";

fn make_token(secret: &str, exp: i64) -> String {
    let mut claims = serde_json::Map::new();
    claims.insert("sub".to_string(), serde_json::Value::from("alice"));
    claims.insert("exp".to_string(), serde_json::Value::from(exp));
    jsonwebtoken::encode(
        &jsonwebtoken::Header::default(),
        &serde_json::Value::Object(claims),
        &jsonwebtoken::EncodingKey::from_secret(secret.as_bytes()),
    )
    .unwrap()
}

fn headers_with_token(token: &str) -> AuthorizationHeader {
    AuthorizationHeader::Text(format!("Bearer {token}"))
}

#[test]
fn valid_token_passes() {
    let auth = JwtAuthenticator::new(TEST_SECRET);
    let exp = chrono::Utc::now().timestamp() + 3600;
    let token = make_token(TEST_SECRET, exp);
    assert!(auth.check(&headers_with_token(&token), "any:perm").is_ok());
}

#[test]
fn missing_authorization_header_fails() {
    let auth = JwtAuthenticator::new(TEST_SECRET);
    let err = auth.check(&AuthorizationHeader::Missing, "any:perm").unwrap_err();
    assert!(matches!(err, ServiceError::Unauthorized(_)));
}

#[test]
fn invalid_token_fails() {
    let auth = JwtAuthenticator::new(TEST_SECRET);
    let err = auth.check(&headers_with_token("not.a.valid.token"), "any:perm").unwrap_err();
    assert!(matches!(err, ServiceError::Unauthorized(_)));
}

#[test]
fn expired_token_fails() {
    let auth = JwtAuthenticator::new(TEST_SECRET);
    let exp = chrono::Utc::now().timestamp() - 120;
    let token = make_token(TEST_SECRET, exp);
    let err = auth.check(&headers_with_token(&token), "any:perm").unwrap_err();
    assert!(matches!(err, ServiceError::Unauthorized(_)));
}

#[test]
fn jwt_header_refusals_name_the_problem() {
    let auth = JwtAuthenticator::new(TEST_SECRET);
    match auth.check(&AuthorizationHeader::Missing, "p") {
        Err(ServiceError::Unauthorized(m)) => assert_eq!(m, "missing Authorization header"),
        other => panic!("unexpected {:?}", other),
    }
    match auth.check(&AuthorizationHeader::Unreadable, "p") {
        Err(ServiceError::Unauthorized(m)) => assert_eq!(m, "invalid Authorization header"),
        other => panic!("unexpected {:?}", other),
    }
    match auth.check(&AuthorizationHeader::Text("Token abc".to_string()), "p") {
        Err(ServiceError::Unauthorized(m)) => assert_eq!(m, "missing Bearer prefix"),
        other => panic!("unexpected {:?}", other),
    }
    match auth.check(&headers_with_token("not.a.valid.token"), "p") {
        Err(ServiceError::Unauthorized(m)) => assert!(m.starts_with("invalid token: ")),
        other => panic!("unexpected {:?}", other),
    }
}

#[test]
fn jwt_decide_maps_the_decoding_outcome() {
    assert!(JwtAuthenticator::decide(Ok(())).is_ok());
    match JwtAuthenticator::decide(Err("ExpiredSignature".to_string())) {
        Err(ServiceError::Unauthorized(m)) => assert_eq!(m, "invalid token: ExpiredSignature"),
        other => panic!("unexpected {:?}", other),
    }
}

#[test]
fn allow_all_and_deny_all() {
    assert!(AllowAll.check(&AuthorizationHeader::Missing, "x:y:z").is_ok());
    match DenyAll.check(&AuthorizationHeader::Missing, "x:y:z") {
        Err(ServiceError::PermissionDenied(m)) => assert_eq!(m, "access denied"),
        other => panic!("unexpected {:?}", other),
    }
}

#[test]
fn bearer_token_is_the_rest_after_the_prefix() {
    let h = AuthorizationHeader::Text("Bearer abc.def".to_string());
    assert_eq!(bearer_token_of(&h), Some("abc.def".to_string()));
    let h = AuthorizationHeader::Text("Bearer ".to_string());
    assert_eq!(bearer_token_of(&h), Some(String::new()));
    let h = AuthorizationHeader::Text("bearer abc".to_string());
    assert_eq!(bearer_token_of(&h), None);
    assert_eq!(bearer_token_of(&AuthorizationHeader::Missing), None);
}
