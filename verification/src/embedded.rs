//! What the embedded development server computes: the URL it announces,
//! where a module's routers are mounted, and the unsigned tokens its
//! development login hands out.
use vstd::prelude::*;
use base64::Engine;
use crate::format::{decimal, write_decimal};
use crate::text::{concat2, concat3, concat5};
use vstd::string::StringSliceAdditionalSpecFns;

verus! {

/// The character of a six-bit value in the URL-safe base64 alphabet:
/// `A`–`Z`, `a`–`z`, `0`–`9`, `-`, `_`.
pub open spec fn base64_url_char(v: int) -> char {
    if v < 26 {
        (65 + v) as char
    } else if v < 52 {
        (97 + v - 26) as char
    } else if v < 62 {
        (48 + v - 52) as char
    } else if v == 62 {
        '-'
    } else {
        '_'
    }
}

/// The URL-safe base64 encoding of `b` without padding: each group of
/// three bytes becomes four characters, a last group of one or two bytes
/// two or three.
pub open spec fn base64_url(b: Seq<u8>) -> Seq<char>
    decreases b.len(),
{
    if b.len() == 0 {
        Seq::empty()
    } else if b.len() == 1 {
        seq![base64_url_char((b[0] / 4) as int), base64_url_char((b[0] % 4) * 16)]
    } else if b.len() == 2 {
        seq![
            base64_url_char((b[0] / 4) as int),
            base64_url_char((b[0] % 4) * 16 + b[1] / 16),
            base64_url_char((b[1] % 16) * 4),
        ]
    } else {
        seq![
            base64_url_char((b[0] / 4) as int),
            base64_url_char((b[0] % 4) * 16 + b[1] / 16),
            base64_url_char((b[1] % 16) * 4 + b[2] / 64),
            base64_url_char((b[2] % 64) as int),
        ] + base64_url(b.skip(3))
    }
}

/// The URL-safe, unpadded base64 encoding of the UTF-8 bytes of `input`.
pub open spec fn base64_url_of(input: &str) -> Seq<char> {
    base64_url(input.spec_bytes())
}

/// Whether the base64 length of `n` bytes fits in a `usize`, which the
/// encoder checks before encoding (it panics otherwise).
pub open spec fn base64_len_fits(n: nat) -> bool {
    (n / 3) * 4 + 3 <= usize::MAX
}

/// Encodes the UTF-8 bytes of `input` with
/// `base64::engine::general_purpose::URL_SAFE_NO_PAD` (the URL-safe
/// alphabet, no padding), which is what the contract states.
#[verifier::external_body]
fn encode_base64_url(input: &str) -> (r: String)
    requires
        base64_len_fits(input.spec_bytes().len()),
    ensures
        r@ == base64_url_of(input),
{
    base64::engine::general_purpose::URL_SAFE_NO_PAD.encode(input.as_bytes())
}

/// The host the server announces when the machine's LAN address is unknown.
pub const LOOPBACK_HOST: &'static str = "127.0.0.1";

/// The URL the embedded server announces: `http://{host}:{port}`, with the
/// LAN address as host, or the loopback address when there is none.
pub fn server_url(lan_ip: Option<&str>, port: u16) -> (r: String)
    ensures
        r@ == "http://"@ + (match lan_ip {
            Some(ip) => ip@,
            None => LOOPBACK_HOST@,
        }) + ":"@ + decimal(port as nat),
{
    let host = match lan_ip {
        Some(ip) => ip,
        None => LOOPBACK_HOST,
    };
    let p = write_decimal(port as u64);
    let head = concat3("http://", host, ":");
    concat2(head.as_str(), p.as_str())
}

/// Where a module's app API is mounted: `/app/{name}`.
pub fn app_mount(module_name: &str) -> (r: String)
    ensures
        r@ == "/app/"@ + module_name@,
{
    concat2("/app/", module_name)
}

/// Where a module's admin API is mounted: `/admin/{name}`.
pub fn admin_mount(module_name: &str) -> (r: String)
    ensures
        r@ == "/admin/"@ + module_name@,
{
    concat2("/admin/", module_name)
}

/// How long a development token is valid, in seconds (a day).
pub const DEV_TOKEN_LIFETIME_SECS: i64 = 86400;

/// The expiry of a development token issued at `issued_at` (seconds since
/// the epoch).
pub fn dev_token_expiry(issued_at: i64) -> (r: i64)
    requires
        issued_at <= i64::MAX - DEV_TOKEN_LIFETIME_SECS,
    ensures
        r == issued_at + DEV_TOKEN_LIFETIME_SECS,
{
    issued_at + DEV_TOKEN_LIFETIME_SECS
}

/// An unsigned token in JWT form: the header, the payload and the
/// signature text, each base64url-encoded, joined by dots.
pub fn unsigned_token(header_json: &str, payload_json: &str, signature: &str) -> (r: String)
    requires
        base64_len_fits(header_json.spec_bytes().len()),
        base64_len_fits(payload_json.spec_bytes().len()),
        base64_len_fits(signature.spec_bytes().len()),
    ensures
        r@ == base64_url_of(header_json) + "."@ + base64_url_of(payload_json) + "."@
            + base64_url_of(signature),
{
    let h = encode_base64_url(header_json);
    let p = encode_base64_url(payload_json);
    let s = encode_base64_url(signature);
    concat5(h.as_str(), ".", p.as_str(), ".", s.as_str())
}

} // verus!
