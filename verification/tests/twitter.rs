use std::collections::hash_map::DefaultHasher;
use std::hash::{Hash, Hasher};

use appnut::topic::topic_match;
use appnut::twitter::module::{ffi_hash_pw, TwitterModule};
use appnut::twitter::pages::{ProfilePage, TweetDetail};
use appnut::twitter::requests::{InitializeReq, LoginReq, SearchReq};

#[test]
fn page_paths() {
    assert_eq!(ProfilePage::<(), ()>::path("alice"), "profile/alice");
    assert_eq!(ProfilePage::<(), ()>::PATH, "profile");
    assert_eq!(TweetDetail::<()>::path("t42"), "tweet/t42");
    assert_eq!(TweetDetail::<()>::PATH, "tweet");
    assert!(topic_match("profile/+", &ProfilePage::<(), ()>::path("bob")));
}

#[test]
fn request_paths() {
    assert_eq!(InitializeReq::PATH, "app/initialize");
    assert_eq!(LoginReq::PATH, "auth/login");
    assert_eq!(SearchReq::PATH, "search/query");
    assert_eq!(SearchReq::CLEAR_PATH, "search/clear");
}

#[test]
fn twitter_module_keeps_first_server() {
    let mut m = TwitterModule::new();
    assert_eq!(m.name(), "twitter");
    assert_eq!(m.server_url(), None);
    m.on_server_ready("http://10.0.0.2:3000");
    m.on_server_ready("http://other:1");
    assert_eq!(m.server_url(), Some("http://10.0.0.2:3000"));
    assert_eq!(TwitterModule::default().server_url(), None);
}

#[test]
fn ffi_hash_pw_is_std_hash_in_hex() {
    let mut hasher = DefaultHasher::new();
    "password".hash(&mut hasher);
    assert_eq!(ffi_hash_pw("password"), format!("{:016x}", hasher.finish()));
    assert_eq!(ffi_hash_pw("x").len(), 16);
}

#[test]
fn topic_exact_patterns() {
    assert!(topic_match("auth/state", "auth/state"));
    assert!(!topic_match("auth/state", "auth/states"));
    assert!(!topic_match("auth/state", "auth"));
    assert!(!topic_match("auth", "auth/state"));
    assert!(topic_match("", ""));
}

#[test]
fn topic_single_level_wildcard() {
    assert!(topic_match("todos/+", "todos/1"));
    assert!(!topic_match("todos/+", "todos/1/x"));
    assert!(!topic_match("todos/+", "todos"));
    assert!(topic_match("+/state", "auth/state"));
    assert!(topic_match("+", "anything"));
    assert!(!topic_match("+", "a/b"));
}

#[test]
fn topic_multi_level_wildcard() {
    assert!(topic_match("#", "a"));
    assert!(topic_match("#", "a/b/c"));
    assert!(topic_match("todos/#", "todos/1"));
    assert!(topic_match("todos/#", "todos/1/title"));
    assert!(topic_match("todos/#", "todos"));
    assert!(!topic_match("todos/#", "other/1"));
}
