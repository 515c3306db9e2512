use std::cell::Cell;

use sha2::Digest;
use token_auth::fingerprint::{canonicalize, extract_raw_token, fingerprint};
use token_auth::handler::{begin, finish, Step, UserRecord};
use token_auth::response::{error_json, error_response, user_id_json, AuthError, HttpResponse};

const SHA512_ABC: &str = "ddaf35a193617abacc417349ae20413112e6fa4e89a97ea20a9eeee64b55d39a2192992a274fc1a836ba3c23a3feebbd454d4423643ce80e2a9ac94fa54ca49f";
const SHA512_EMPTY: &str = "cf83e1357eefb8bdf1542850d66d8007d620e4050b5715dc83f4a921d36ce9ce47d0d13c5d85f2b0ff8318d2877eec2f63b931bd47417a81a538327af927da3e";

struct FakeStore {
    records: Vec<(String, String)>,
    fail: bool,
    queries: Cell<u32>,
}

impl FakeStore {
    fn new(records: Vec<(String, String)>, fail: bool) -> FakeStore {
        FakeStore { records, fail, queries: Cell::new(0) }
    }

    fn find_one(&self, fingerprint: &str) -> Result<Option<UserRecord>, String> {
        self.queries.set(self.queries.get() + 1);
        if self.fail {
            return Err("connection refused by db.internal:27017".to_string());
        }
        Ok(self
            .records
            .iter()
            .find(|(fp, _)| fp == fingerprint)
            .map(|(fp, id)| UserRecord {
                user_id: id.clone(),
                pgp_pub_key: None,
                token: Some(fp.clone()),
            }))
    }
}

fn run(header: Option<&str>, store: &FakeStore) -> HttpResponse {
    match begin(header) {
        Step::Respond(r) => r,
        Step::Lookup(fp) => finish(store.find_one(&fp)),
    }
}

fn sha512_hex(data: &[u8]) -> String {
    hex::encode(sha2::Sha512::digest(data))
}

#[test]
fn trims_outer_whitespace_before_hashing() {
    let fp = canonicalize("Bearer   abc123   ").unwrap();
    assert_eq!(fp, sha512_hex(b"abc123"));
    assert_eq!(extract_raw_token(b"Bearer   abc123   "), Some(b"abc123".to_vec()));
}

#[test]
fn known_digest_of_abc() {
    assert_eq!(canonicalize("Bearer abc").unwrap(), SHA512_ABC);
    assert_eq!(fingerprint(b"abc"), SHA512_ABC);
}

#[test]
fn empty_token_hashes_empty_input() {
    assert_eq!(canonicalize("Bearer ").unwrap(), SHA512_EMPTY);
    assert_eq!(canonicalize("Bearer \t\r\n ").unwrap(), SHA512_EMPTY);
}

#[test]
fn fingerprint_is_128_lowercase_hex_digits() {
    let fp = canonicalize("Bearer some-token").unwrap();
    assert_eq!(fp.len(), 128);
    assert!(fp.chars().all(|c| c.is_ascii_digit() || ('a'..='f').contains(&c)));
}

#[test]
fn canonicalize_is_deterministic() {
    let a = canonicalize("Bearer token-1");
    let b = canonicalize("Bearer token-1");
    assert_eq!(a, b);
}

#[test]
fn distinct_tokens_distinct_fingerprints() {
    let tokens = ["a", "b", "ab", "a b", "A", "abc123", "abc1234", "token", "Token", "x y z"];
    let mut seen: Vec<String> = Vec::new();
    for t in tokens.iter() {
        let fp = canonicalize(&format!("Bearer {}", t)).unwrap();
        assert!(!seen.contains(&fp), "collision on {}", t);
        seen.push(fp);
    }
}

#[test]
fn internal_whitespace_is_kept() {
    assert_ne!(canonicalize("Bearer a b").unwrap(), canonicalize("Bearer ab").unwrap());
}

#[test]
fn scheme_is_case_sensitive_and_needs_one_space() {
    assert_eq!(canonicalize("bearer abc"), Err(AuthError::MalformedCredential));
    assert_eq!(canonicalize("Bearer\tabc"), Err(AuthError::MalformedCredential));
    assert_eq!(canonicalize("Bearer"), Err(AuthError::MalformedCredential));
    assert_eq!(canonicalize(""), Err(AuthError::MalformedCredential));
    assert_eq!(canonicalize(" Bearer abc"), Err(AuthError::MalformedCredential));
    assert_eq!(extract_raw_token(b"Token abc"), None);
}

#[test]
fn wrong_scheme_is_bad_request() {
    let store = FakeStore::new(vec![], false);
    let r = run(Some("Basic abc123"), &store);
    assert_eq!(r.status, 400);
    assert_eq!(r.body, r#"{"error":"Authorization header must begin with \"Bearer\""}"#);
    assert_eq!(store.queries.get(), 0);
}

#[test]
fn missing_header_is_bad_request_without_lookup() {
    let store = FakeStore::new(vec![], false);
    let r = run(None, &store);
    assert_eq!(r.status, 400);
    assert_eq!(r.body, r#"{"error":"Missing request header \"Authorization\""}"#);
    assert_eq!(store.queries.get(), 0);
}

#[test]
fn unknown_token_is_unauthorized_after_one_query() {
    let store = FakeStore::new(vec![(sha512_hex(b"other"), "u-1".to_string())], false);
    let r = run(Some("Bearer abc123"), &store);
    assert_eq!(r.status, 401);
    assert_eq!(r.body, r#"{"error":"Invalid token"}"#);
    assert_eq!(store.queries.get(), 1);
}

#[test]
fn known_token_returns_user_id() {
    let store = FakeStore::new(vec![(sha512_hex(b"abc123"), "u-42".to_string())], false);
    let r = run(Some("Bearer abc123"), &store);
    assert_eq!(r.status, 200);
    assert_eq!(r.body, r#"{"user_id":"u-42"}"#);
    assert_eq!(store.queries.get(), 1);
}

#[test]
fn store_failure_is_opaque_server_error() {
    let store = FakeStore::new(vec![(sha512_hex(b"abc123"), "u-42".to_string())], true);
    let r = run(Some("Bearer abc123"), &store);
    assert_eq!(r.status, 500);
    assert_eq!(r.body, r#"{"error":"Internal Server Error"}"#);
    assert!(!r.body.contains("connection refused"));
    assert_eq!(store.queries.get(), 1);
}

#[test]
fn repeated_request_same_outcome() {
    let store = FakeStore::new(vec![(sha512_hex(b"abc123"), "u-42".to_string())], false);
    for header in [Some("Bearer abc123"), Some("Bearer nope"), Some("Basic x"), None] {
        let a = run(header, &store);
        let b = run(header, &store);
        assert_eq!(a.status, b.status);
        assert_eq!(a.body, b.body);
    }
}

#[test]
fn user_id_is_json_escaped() {
    let r = finish::<()>(Ok(Some(UserRecord {
        user_id: "a\"b\\c".to_string(),
        pgp_pub_key: None,
        token: None,
    })));
    assert_eq!(r.status, 200);
    assert_eq!(r.body, r#"{"user_id":"a\"b\\c"}"#);
    assert_eq!(user_id_json("u-42"), r#"{"user_id":"u-42"}"#);
}

#[test]
fn error_json_escapes_control_characters() {
    assert_eq!(error_json("a\nb\tc\rd\u{1}e\u{1f}"), r#"{"error":"a\nb\tc\rd\u0001e\u001f"}"#);
    assert_eq!(error_json(""), r#"{"error":""}"#);
    assert_eq!(error_json("héllo"), "{\"error\":\"héllo\"}");
}

#[test]
fn each_error_has_its_status() {
    assert_eq!(error_response(AuthError::MissingHeader).status, 400);
    assert_eq!(error_response(AuthError::MalformedCredential).status, 400);
    assert_eq!(error_response(AuthError::InvalidToken).status, 401);
    assert_eq!(error_response(AuthError::StorageFailure).status, 500);
    assert_eq!(error_response(AuthError::StorageFailure).body, r#"{"error":"Internal Server Error"}"#);
}

#[test]
fn finish_maps_each_lookup_outcome() {
    assert_eq!(finish::<()>(Ok(None)).status, 401);
    assert_eq!(finish::<&str>(Err("timeout")).status, 500);
}
