use appnut::embedded::{
    admin_mount, app_mount, dev_token_expiry, server_url, unsigned_token,
    DEV_TOKEN_LIFETIME_SECS, LOOPBACK_HOST,
};
use base64::Engine;

#[test]
fn server_url_uses_lan_address() {
    assert_eq!(server_url(Some("192.168.1.100"), 3000), "http://192.168.1.100:3000");
    assert_eq!(server_url(Some("10.0.0.7"), 65535), "http://10.0.0.7:65535");
}

#[test]
fn server_url_falls_back_to_loopback() {
    assert_eq!(LOOPBACK_HOST, "127.0.0.1");
    assert_eq!(server_url(None, 0), "http://127.0.0.1:0");
    assert_eq!(server_url(None, 8080), "http://127.0.0.1:8080");
}

#[test]
fn module_mounts() {
    assert_eq!(app_mount("shop"), "/app/shop");
    assert_eq!(admin_mount("twitter"), "/admin/twitter");
}

#[test]
fn dev_tokens_last_a_day() {
    assert_eq!(DEV_TOKEN_LIFETIME_SECS, 86400);
    assert_eq!(dev_token_expiry(1_700_000_000), 1_700_086_400);
    assert_eq!(dev_token_expiry(i64::MAX - 86400), i64::MAX);
}

#[test]
fn unsigned_token_encodes_each_part() {
    let token = unsigned_token("{}", r#"{"sub":"app"}"#, "sig");
    assert_eq!(token, "e30.eyJzdWIiOiJhcHAifQ.c2ln");
    let b64 = |s: &str| base64::engine::general_purpose::URL_SAFE_NO_PAD.encode(s.as_bytes());
    let header = r#"{"alg":"HS256","typ":"JWT"}"#;
    let t = unsigned_token(header, "ü", "shop-test-signature");
    assert_eq!(t, format!("{}.{}.{}", b64(header), b64("ü"), b64("shop-test-signature")));
    assert_eq!(t.split('.').count(), 3);
}
