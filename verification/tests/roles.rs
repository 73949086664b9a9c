use appnut::rbac::RolePermissions;
use appnut::twitter::roles::{twitter_permission_map, TwitterRole};

#[test]
fn admin_has_all_permissions() {
    let map = twitter_permission_map();
    assert!(map.is_allowed("admin", "twitter:user:delete"));
    assert!(map.is_allowed("admin", "twitter:tweet:create"));
    assert!(map.is_allowed("admin", "twitter:message:read"));
}

#[test]
fn user_can_create_tweet() {
    let map = twitter_permission_map();
    assert!(map.is_allowed("user", "twitter:tweet:create"));
}

#[test]
fn user_cannot_delete_tweet() {
    let map = twitter_permission_map();
    assert!(!map.is_allowed("user", "twitter:tweet:delete"));
}

#[test]
fn user_cannot_delete_other_users() {
    let map = twitter_permission_map();
    assert!(!map.is_allowed("user", "twitter:user:delete"));
    assert!(!map.is_allowed("user", "twitter:user:create"));
}

#[test]
fn role_names_and_grants() {
    assert_eq!(TwitterRole::Admin.role_name(), "admin");
    assert_eq!(TwitterRole::User.role_name(), "user");
    assert_eq!(TwitterRole::Admin.granted_permissions(), &["*:*:*"]);
    assert_eq!(TwitterRole::User.granted_permissions().len(), 10);
    let map = twitter_permission_map();
    assert_eq!(map.permissions_for("admin"), vec!["*:*:*".to_string()]);
    assert_eq!(map.permissions_for("user").len(), 10);
    assert!(map.is_allowed("user", "twitter:message:update"));
    assert!(!map.is_allowed("guest", "twitter:tweet:read"));
}
