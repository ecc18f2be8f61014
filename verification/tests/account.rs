use bajam::account::{
    check_credentials, credentials_outcome, login, open_session, register, session_for_token,
    registration_outcome, LoginError, LoginUser, RegisterPost, User,
};
use bajam::auth::{authorize, session_key_from_header, AuthDecision, SessionRow};
use bajam::store::Lookup;
use bajam::time::{session_expiry, Timestamp, SESSION_LIFETIME_SECS};
use bajam::token::token_hash;

fn is_v4_uuid_text(s: &str) -> bool {
    let b = s.as_bytes();
    b.len() == 36
        && b.iter().enumerate().all(|(i, c)| {
            if [8, 13, 18, 23].contains(&i) {
                *c == b'-'
            } else {
                c.is_ascii_digit() || (b'a'..=b'f').contains(c)
            }
        })
        && b[14] == b'4'
        && [b'8', b'9', b'a', b'b'].contains(&b[19])
}

fn creds(name: &str, password: &str) -> LoginUser {
    LoginUser { username: name.to_string(), password: password.to_string() }
}

fn registered(id: i64, name: &str, password: &str) -> User {
    let new_user = register(RegisterPost { username: name.to_string(), password: password.to_string() })
        .expect("hashing with cost 10 succeeds");
    User { id, username: new_user.username, password_hash: new_user.password_hash }
}

#[test]
fn register_hashes_the_password() {
    let new_user = register(RegisterPost { username: "alice".to_string(), password: "hunter2".to_string() })
        .unwrap();
    assert_eq!(new_user.username, "alice");
    assert_eq!(new_user.password_hash.len(), 60);
    assert!(new_user.password_hash.starts_with("$2b$10$"));
    assert_ne!(new_user.password_hash, "hunter2");
    assert_eq!(bcrypt::verify("hunter2", &new_user.password_hash).unwrap(), true);
}

#[test]
fn registered_password_logs_in_and_others_do_not() {
    let user = registered(7, "alice", "hunter2");
    assert_eq!(check_credentials(&Lookup::Found(user), "hunter2"), Ok(7));
    let user = registered(7, "alice", "hunter2");
    assert_eq!(check_credentials(&Lookup::Found(user), "hunter3"), Err(LoginError::InvalidPassword));
}

#[test]
fn unknown_user_or_bad_hash_is_invalid_credentials() {
    assert_eq!(check_credentials(&Lookup::Missing, "x"), Err(LoginError::InvalidCredentials));
    assert_eq!(check_credentials(&Lookup::Failed, "x"), Err(LoginError::InvalidCredentials));
    let broken = User { id: 1, username: "bob".to_string(), password_hash: "not a hash".to_string() };
    assert_eq!(check_credentials(&Lookup::Found(broken), "x"), Err(LoginError::InvalidCredentials));
}

#[test]
fn credentials_outcome_table() {
    let user = || User { id: 9, username: "u".to_string(), password_hash: String::new() };
    assert_eq!(credentials_outcome(&Lookup::Found(user()), Some(true)), Ok(9));
    assert_eq!(credentials_outcome(&Lookup::Found(user()), Some(false)), Err(LoginError::InvalidPassword));
    assert_eq!(credentials_outcome(&Lookup::Found(user()), None), Err(LoginError::InvalidCredentials));
    assert_eq!(credentials_outcome(&Lookup::Missing, Some(true)), Err(LoginError::InvalidCredentials));
    assert_eq!(credentials_outcome(&Lookup::Failed, Some(true)), Err(LoginError::InvalidCredentials));
}

#[test]
fn login_error_answers() {
    assert_eq!(LoginError::InvalidCredentials.message(), "Invalid credentials");
    assert_eq!(LoginError::InvalidPassword.message(), "Invalid password");
    assert_eq!(LoginError::InvalidCredentials.status(), 401);
    assert_eq!(LoginError::InvalidPassword.status(), 401);
}

#[test]
fn session_expiry_is_thirty_days_later() {
    let now = Timestamp { secs: 1_700_000_000, nanos: 123 };
    assert_eq!(SESSION_LIFETIME_SECS, 30 * 24 * 60 * 60);
    assert_eq!(session_expiry(now), Timestamp { secs: 1_702_592_000, nanos: 123 });
}

#[test]
fn session_for_token_stores_the_token_hash() {
    let now = Timestamp { secs: 100, nanos: 5 };
    let s = session_for_token(3, "abc".to_string(), now);
    assert_eq!(s.response.token, "abc");
    assert_eq!(s.session.token_hash, "ba7816bf8f01cfea414140de5dae2223b00361a396177a9cb410ff61f20015ad");
    assert_eq!(s.session.user_id, 3);
    assert_eq!(s.session.expires_at, Timestamp { secs: 100 + SESSION_LIFETIME_SECS, nanos: 5 });
}

#[test]
fn open_session_uses_a_fresh_uuid() {
    let now = Timestamp { secs: 0, nanos: 0 };
    let a = open_session(1, now);
    let b = open_session(1, now);
    assert!(is_v4_uuid_text(&a.response.token));
    assert!(is_v4_uuid_text(&b.response.token));
    assert_ne!(a.response.token, b.response.token);
    assert_eq!(a.session.token_hash, token_hash(a.response.token.as_bytes()));
}

#[test]
fn login_opens_a_session_for_the_user() {
    let now = Timestamp { secs: 1_700_000_000, nanos: 0 };
    let user = registered(42, "carol", "pa55word");
    let s = login(&Lookup::Found(user), &creds("carol", "pa55word"), now).unwrap();
    assert_eq!(s.session.user_id, 42);
    assert!(is_v4_uuid_text(&s.response.token));
    assert_eq!(s.session.token_hash, token_hash(s.response.token.as_bytes()));
    assert_eq!(s.session.expires_at, Timestamp { secs: 1_700_000_000 + SESSION_LIFETIME_SECS, nanos: 0 });
}

#[test]
fn login_refusals() {
    let now = Timestamp { secs: 0, nanos: 0 };
    let user = registered(42, "carol", "pa55word");
    assert_eq!(login(&Lookup::Found(user), &creds("carol", "wrong"), now).unwrap_err(), LoginError::InvalidPassword);
    assert_eq!(login(&Lookup::Missing, &creds("nobody", "pa55word"), now).unwrap_err(), LoginError::InvalidCredentials);
}

#[test]
fn issued_token_authenticates_until_expiry() {
    let login_time = Timestamp { secs: 1_700_000_000, nanos: 0 };
    let user = registered(5, "dave", "secret");
    let s = login(&Lookup::Found(user), &creds("dave", "secret"), login_time).unwrap();
    let header = format!("Bearer {}", s.response.token);
    let key = session_key_from_header(Some(header.as_bytes())).unwrap();
    assert_eq!(key, s.session.token_hash);
    let row = SessionRow { user_id: s.session.user_id, expires_at: s.session.expires_at };
    let a_day_later = Timestamp { secs: login_time.secs + 86_400, nanos: 0 };
    assert_eq!(authorize(Lookup::Found(row), a_day_later), AuthDecision::Grant { user_id: 5 });
    let too_late = Timestamp { secs: login_time.secs + SESSION_LIFETIME_SECS, nanos: 1 };
    assert_eq!(authorize(Lookup::Found(row), too_late), AuthDecision::Expire { user_id: 5 });
}

#[test]
fn registration_outcome_table() {
    let post = || RegisterPost { username: "erin".to_string(), password: "pw".to_string() };
    let ok = registration_outcome(post(), Ok("$2b$10$hash".to_string())).unwrap();
    assert_eq!(ok.username, "erin");
    assert_eq!(ok.password_hash, "$2b$10$hash");
    let err = registration_outcome(post(), Err("Rand error: failed".to_string())).unwrap_err();
    assert_eq!(err.message, "Rand error: failed");
    assert_eq!(err.status(), 500);
}
