use bajam::auth::{
    authorize, bearer_token, session_key_from_header, AuthDecision, AuthError, SessionRow,
};
use bajam::store::Lookup;
use bajam::time::Timestamp;
use bajam::token::token_hash;

const ABC_SHA256_HEX: &str = "ba7816bf8f01cfea414140de5dae2223b00361a396177a9cb410ff61f20015ad";
const EMPTY_SHA256_HEX: &str = "e3b0c44298fc1c149afbf4c8996fb92427ae41e4649b934ca495991b7852b855";

fn at(secs: i64, nanos: u32) -> Timestamp {
    Timestamp { secs, nanos }
}

#[test]
fn token_hash_is_hex_sha256() {
    assert_eq!(token_hash(b"abc"), ABC_SHA256_HEX);
    assert_eq!(token_hash(b""), EMPTY_SHA256_HEX);
    let key = token_hash(b"some token");
    assert_eq!(key.len(), 64);
    assert!(key.chars().all(|c| c.is_ascii_digit() || ('a'..='f').contains(&c)));
}

#[test]
fn bearer_token_strips_the_prefix() {
    assert_eq!(bearer_token(b"Bearer abc"), Some(b"abc".to_vec()));
    assert_eq!(bearer_token(b"Bearer "), Some(Vec::new()));
    assert_eq!(bearer_token(b"Bearer a\tb"), Some(b"a\tb".to_vec()));
}

#[test]
fn bearer_token_refuses_other_headers() {
    assert_eq!(bearer_token(b""), None);
    assert_eq!(bearer_token(b"Bearer"), None);
    assert_eq!(bearer_token(b"bearer abc"), None);
    assert_eq!(bearer_token(b"Basic abc"), None);
    assert_eq!(bearer_token(b"Bearer ab\ncd"), None);
    assert_eq!(bearer_token(b"Bearer ab\x7fcd"), None);
    assert_eq!(bearer_token("Bearer caf\u{e9}".as_bytes()), None);
}

#[test]
fn session_key_from_header_hashes_the_token() {
    let key = session_key_from_header(Some(b"Bearer abc".as_slice()));
    assert_eq!(key, Ok(ABC_SHA256_HEX.to_string()));
    let empty = session_key_from_header(Some(b"Bearer ".as_slice()));
    assert_eq!(empty, Ok(EMPTY_SHA256_HEX.to_string()));
}

#[test]
fn session_key_from_header_refuses_missing_or_bad_header() {
    assert_eq!(session_key_from_header(None), Err(AuthError::InvalidHeader));
    assert_eq!(
        session_key_from_header(Some(b"Token abc".as_slice())),
        Err(AuthError::InvalidHeader)
    );
    assert_eq!(
        session_key_from_header(Some(b"Bearer \x01".as_slice())),
        Err(AuthError::InvalidHeader)
    );
}

#[test]
fn authorize_grants_a_live_session() {
    let row = SessionRow { user_id: 4, expires_at: at(1_000, 0) };
    assert_eq!(authorize(Lookup::Found(row), at(999, 999_999_999)), AuthDecision::Grant { user_id: 4 });
    // The expiry itself is still inside the session.
    assert_eq!(authorize(Lookup::Found(row), at(1_000, 0)), AuthDecision::Grant { user_id: 4 });
}

#[test]
fn authorize_expires_a_past_session() {
    let row = SessionRow { user_id: 4, expires_at: at(1_000, 5) };
    assert_eq!(authorize(Lookup::Found(row), at(1_000, 6)), AuthDecision::Expire { user_id: 4 });
    assert_eq!(authorize(Lookup::Found(row), at(2_000, 0)), AuthDecision::Expire { user_id: 4 });
}

#[test]
fn authorize_denies_missing_or_failed_lookup() {
    assert_eq!(authorize(Lookup::Missing, at(0, 0)), AuthDecision::Deny(AuthError::InvalidSession));
    assert_eq!(authorize(Lookup::Failed, at(0, 0)), AuthDecision::Deny(AuthError::InvalidSession));
}

#[test]
fn auth_error_answers() {
    assert_eq!(AuthError::InvalidHeader.message(), "Invalid authorization header");
    assert_eq!(AuthError::InvalidSession.message(), "Invalid session token");
    assert_eq!(AuthError::SessionExpired.message(), "Session expired");
    assert_eq!(AuthError::InvalidHeader.status(), 401);
    assert_eq!(AuthError::InvalidSession.status(), 401);
    assert_eq!(AuthError::SessionExpired.status(), 401);
}

#[test]
fn timestamps_order_by_seconds_then_nanos() {
    assert!(at(1, 0).is_before(&at(2, 0)));
    assert!(at(1, 1).is_before(&at(1, 2)));
    assert!(!at(1, 2).is_before(&at(1, 2)));
    assert!(!at(2, 0).is_before(&at(1, 999_999_999)));
    assert!(at(-5, 0).is_before(&at(0, 0)));
}
