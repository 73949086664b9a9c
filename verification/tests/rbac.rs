use appnut::jwt::RoleField;
use appnut::rbac::claimed_role;
use appnut::auth::{AuthorizationHeader, Authenticator, ServiceError};
use appnut::rbac::{
    auth_mode, permission_matches, resolve_auth_mode, AuthMode, ClaimedRole, PermissionMap,
    RbacAuthenticator, ResolvedAuthenticator,
};

fn claims(entries: &[(&str, serde_json::Value)]) -> serde_json::Value {
    let mut m = serde_json::Map::new();
    for (k, v) in entries {
        m.insert(k.to_string(), v.clone());
    }
    serde_json::Value::Object(m)
}

fn make_token(secret: &str, claims: &serde_json::Value) -> String {
    jsonwebtoken::encode(
        &jsonwebtoken::Header::default(),
        claims,
        &jsonwebtoken::EncodingKey::from_secret(secret.as_bytes()),
    )
    .unwrap()
}

fn bearer_headers(token: &str) -> AuthorizationHeader {
    AuthorizationHeader::Text(format!("Bearer {}", token))
}

fn now() -> i64 {
    chrono::Utc::now().timestamp()
}

#[test]
fn exact_match() {
    assert!(permission_matches("twitter:tweet:create", "twitter:tweet:create"));
}

#[test]
fn wildcard_action() {
    assert!(permission_matches("twitter:tweet:create", "twitter:tweet:*"));
}

#[test]
fn wildcard_resource_and_action() {
    assert!(permission_matches("twitter:tweet:create", "twitter:*:*"));
}

#[test]
fn super_admin() {
    assert!(permission_matches("twitter:tweet:create", "*:*:*"));
    assert!(permission_matches("shop:order:delete", "*:*:*"));
}

#[test]
fn wrong_module() {
    assert!(!permission_matches("twitter:tweet:create", "shop:*:*"));
}

#[test]
fn wrong_action() {
    assert!(!permission_matches("twitter:tweet:create", "twitter:tweet:delete"));
}

#[test]
fn segment_count_mismatch() {
    assert!(!permission_matches("twitter:tweet", "twitter:tweet:create"));
}

#[test]
fn permission_map_basic() {
    let mut map = PermissionMap::new();
    map.add_role("admin", &["*:*:*"]);
    map.add_role("user", &["twitter:tweet:create", "twitter:tweet:read"]);

    assert!(map.is_allowed("admin", "twitter:tweet:delete"));
    assert!(map.is_allowed("user", "twitter:tweet:create"));
    assert!(!map.is_allowed("user", "twitter:tweet:delete"));
    assert!(!map.is_allowed("guest", "twitter:tweet:read"));
}

#[test]
fn permission_map_wildcard_role() {
    let mut map = PermissionMap::new();
    map.add_role("moderator", &["twitter:*:read", "twitter:*:list"]);

    assert!(map.is_allowed("moderator", "twitter:tweet:read"));
    assert!(map.is_allowed("moderator", "twitter:user:list"));
    assert!(!map.is_allowed("moderator", "twitter:tweet:create"));
}

#[test]
fn permissions_for_role() {
    let mut map = PermissionMap::new();
    map.add_role("user", &["a:b:c", "d:e:f"]);

    let perms = map.permissions_for("user");
    assert_eq!(perms.len(), 2);
    assert!(perms.contains(&"a:b:c".to_string()));

    let empty = map.permissions_for("nonexistent");
    assert!(empty.is_empty());
}

#[test]
fn rbac_authenticator_missing_header() {
    let auth = RbacAuthenticator::new("secret", PermissionMap::new());
    let result = auth.check(&AuthorizationHeader::Missing, "any:perm:here");
    assert!(result.is_err());
}

#[test]
fn rbac_authenticator_invalid_token() {
    let auth = RbacAuthenticator::new("secret", PermissionMap::new());
    let headers = AuthorizationHeader::Text("Bearer invalid.token".to_string());
    let result = auth.check(&headers, "any:perm:here");
    assert!(result.is_err());
}

#[test]
fn rbac_authenticator_valid_token_allowed() {
    let secret = "test-secret-key";
    let mut map = PermissionMap::new();
    map.add_role("admin", &["*:*:*"]);

    let auth = RbacAuthenticator::new(secret, map);

    let token = make_token(
        secret,
        &claims(&[
            ("sub", "alice".into()),
            ("role", "admin".into()),
            ("iat", now().into()),
            ("exp", (now() + 3600).into()),
        ]),
    );

    assert!(auth.check(&bearer_headers(&token), "twitter:user:list").is_ok());
}

#[test]
fn rbac_authenticator_valid_token_denied() {
    let secret = "test-secret-key";
    let mut map = PermissionMap::new();
    map.add_role("user", &["twitter:tweet:read"]);

    let auth = RbacAuthenticator::new(secret, map);

    let token = make_token(
        secret,
        &claims(&[
            ("sub", "alice".into()),
            ("role", "user".into()),
            ("iat", now().into()),
            ("exp", (now() + 3600).into()),
        ]),
    );

    assert!(auth.check(&bearer_headers(&token), "twitter:user:list").is_err());
}

#[test]
fn token_without_role_defaults_to_user() {
    let secret = "qa-secret";
    let mut map = PermissionMap::new();
    map.add_role("user", &["twitter:tweet:create"]);

    let auth = RbacAuthenticator::new(secret, map);
    let token = make_token(
        secret,
        &claims(&[
            ("sub", "alice".into()),
            ("iat", now().into()),
            ("exp", (now() + 3600).into()),
        ]),
    );
    assert!(auth.check(&bearer_headers(&token), "twitter:tweet:create").is_ok());
}

#[test]
fn expired_token_returns_unauthorized() {
    let secret = "qa-secret";
    let mut map = PermissionMap::new();
    map.add_role("admin", &["*:*:*"]);
    let auth = RbacAuthenticator::new(secret, map);

    let token = make_token(
        secret,
        &claims(&[
            ("sub", "alice".into()),
            ("role", "admin".into()),
            ("iat", (now() - 7200).into()),
            ("exp", (now() - 3600).into()),
        ]),
    );
    let err = auth.check(&bearer_headers(&token), "any:perm:here").unwrap_err();
    assert!(matches!(err, ServiceError::Unauthorized(_)), "expected Unauthorized, got {:?}", err);
}

#[test]
fn wrong_secret_returns_unauthorized() {
    let mut map = PermissionMap::new();
    map.add_role("admin", &["*:*:*"]);
    let auth = RbacAuthenticator::new("verifier-secret", map);

    let token = make_token(
        "issuer-secret",
        &claims(&[
            ("sub", "alice".into()),
            ("role", "admin".into()),
            ("iat", now().into()),
            ("exp", (now() + 3600).into()),
        ]),
    );
    let err = auth.check(&bearer_headers(&token), "any:perm:here").unwrap_err();
    assert!(matches!(err, ServiceError::Unauthorized(_)));
}

#[test]
fn missing_header_is_unauthorized_not_forbidden() {
    let auth = RbacAuthenticator::new("secret", PermissionMap::new());
    let err = auth.check(&AuthorizationHeader::Missing, "x:y:z").unwrap_err();
    assert!(matches!(err, ServiceError::Unauthorized(_)), "expected Unauthorized, got {:?}", err);
}

#[test]
fn valid_token_insufficient_role_is_permission_denied() {
    let secret = "qa-secret";
    let mut map = PermissionMap::new();
    map.add_role("user", &["twitter:tweet:read"]);
    let auth = RbacAuthenticator::new(secret, map);

    let token = make_token(
        secret,
        &claims(&[
            ("sub", "alice".into()),
            ("role", "user".into()),
            ("iat", now().into()),
            ("exp", (now() + 3600).into()),
        ]),
    );
    let err = auth.check(&bearer_headers(&token), "twitter:user:delete").unwrap_err();
    assert!(matches!(err, ServiceError::PermissionDenied(_)), "expected PermissionDenied, got {:?}", err);
}

#[test]
fn empty_required_permission_no_match() {
    assert!(!permission_matches("", "a:b:c"));
    assert!(!permission_matches("a:b:c", ""));
}

#[test]
fn wildcard_module_exact_action() {
    assert!(permission_matches("twitter:tweet:create", "twitter:*:create"));
    assert!(!permission_matches("twitter:tweet:delete", "twitter:*:create"));
}

// ── Further cases ──

#[test]
fn wildcard_only_counts_in_the_granted_pattern() {
    assert!(!permission_matches("*:*:*", "twitter:tweet:create"));
    assert!(permission_matches("*:*:*", "*:*:*"));
}

#[test]
fn add_role_replaces_patterns() {
    let mut map = PermissionMap::default();
    map.add_role("user", &["a:b:c"]);
    map.add_role("user", &["d:e:f"]);
    assert_eq!(map.permissions_for("user"), vec!["d:e:f".to_string()]);
    assert!(!map.is_allowed("user", "a:b:c"));
    assert!(map.is_allowed("user", "d:e:f"));
}

#[test]
fn denial_and_unauthorized_messages() {
    let mut map = PermissionMap::new();
    map.add_role("user", &["a:b:c"]);
    let auth = RbacAuthenticator::new("s", map);
    match auth.decide(Ok(ClaimedRole::Absent), "x:y:z") {
        Err(ServiceError::PermissionDenied(m)) => assert_eq!(m, "role 'user' lacks permission 'x:y:z'"),
        other => panic!("unexpected {:?}", other),
    }
    assert!(auth.decide(Ok(ClaimedRole::Absent), "a:b:c").is_ok());
    match auth.decide(Ok(ClaimedRole::Named("guest".to_string())), "a:b:c") {
        Err(ServiceError::PermissionDenied(m)) => assert_eq!(m, "role 'guest' lacks permission 'a:b:c'"),
        other => panic!("unexpected {:?}", other),
    }
    match auth.decide(Err("InvalidSignature".to_string()), "a:b:c") {
        Err(ServiceError::Unauthorized(m)) => assert_eq!(m, "invalid token: InvalidSignature"),
        other => panic!("unexpected {:?}", other),
    }
    match auth.decide(Ok(ClaimedRole::Malformed), "a:b:c") {
        Err(ServiceError::Unauthorized(_)) => {}
        other => panic!("unexpected {:?}", other),
    }
    match auth.check(&AuthorizationHeader::Text("Basic abc".to_string()), "a:b:c") {
        Err(ServiceError::Unauthorized(m)) => assert_eq!(m, "missing or invalid authorization header"),
        other => panic!("unexpected {:?}", other),
    }
    match auth.check(&AuthorizationHeader::Unreadable, "a:b:c") {
        Err(ServiceError::Unauthorized(m)) => assert_eq!(m, "missing or invalid authorization header"),
        other => panic!("unexpected {:?}", other),
    }
}

#[test]
fn role_claim_that_is_not_text_is_unauthorized() {
    let secret = "s";
    let mut map = PermissionMap::new();
    map.add_role("user", &["*:*:*"]);
    let auth = RbacAuthenticator::new(secret, map);
    let token = make_token(
        secret,
        &claims(&[("role", 5.into()), ("exp", (now() + 3600).into())]),
    );
    let err = auth.check(&bearer_headers(&token), "a:b:c").unwrap_err();
    assert!(matches!(err, ServiceError::Unauthorized(_)));
    let token = make_token(
        secret,
        &claims(&[("role", serde_json::Value::Null), ("exp", (now() + 3600).into())]),
    );
    assert!(auth.check(&bearer_headers(&token), "a:b:c").is_ok());
}

#[test]
fn auth_mode_from_setting() {
    assert_eq!(auth_mode(Some("allow_all")), AuthMode::AllowAll);
    assert_eq!(auth_mode(Some("rbac")), AuthMode::Rbac);
    assert_eq!(auth_mode(Some("ALLOW_ALL")), AuthMode::Rbac);
    assert_eq!(auth_mode(None), AuthMode::Rbac);
    let rbac = RbacAuthenticator::new("s", PermissionMap::new());
    let resolved = resolve_auth_mode(rbac, Some("allow_all"));
    assert!(matches!(resolved, ResolvedAuthenticator::AllowAll(_)));
    assert!(resolved.check(&AuthorizationHeader::Missing, "a:b:c").is_ok());
    let rbac = RbacAuthenticator::new("s", PermissionMap::new());
    let resolved = resolve_auth_mode(rbac, None);
    assert!(resolved.check(&AuthorizationHeader::Missing, "a:b:c").is_err());
}

#[test]
fn role_entry_kinds() {
    assert!(matches!(claimed_role(RoleField::Missing), ClaimedRole::Absent));
    assert!(matches!(claimed_role(RoleField::Null), ClaimedRole::Absent));
    assert!(matches!(claimed_role(RoleField::Text("admin".into())), ClaimedRole::Named(ref s) if s == "admin"));
    assert!(matches!(claimed_role(RoleField::Other), ClaimedRole::Malformed));
}

#[test]
fn resolved_rbac_refuses_missing_header() {
    let rbac = RbacAuthenticator::new("s", PermissionMap::new());
    let resolved = resolve_auth_mode(rbac, None);
    match resolved.check(&AuthorizationHeader::Missing, "a:b:c") {
        Err(ServiceError::Unauthorized(m)) => assert_eq!(m, "missing or invalid authorization header"),
        other => panic!("unexpected {other:?}"),
    }
}
