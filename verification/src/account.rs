//! Accounts: registration and the login decision.

use vstd::prelude::*;

use crate::auth::{
    all_visible_ascii, bearer_of, bearer_prefix, decision_for, is_visible_ascii, lookup_key_of,
    AuthDecision, SessionRow,
};
use crate::store::Lookup;
use crate::time::{Timestamp, expiry_of, session_expiry, SESSION_LIFETIME_SECS};
use crate::token::{hex_digit, is_v4_uuid_text, random_uuid_text, token_hash, token_key};
use vstd::utf8::{encode_utf8, is_ascii_chars, is_ascii_chars_encode_utf8};

verus! {

/// The bcrypt cost that new password hashes are made with.
pub const PASSWORD_HASH_COST: u32 = 10;

/// A row of the `users` table.
#[derive(Debug)]
pub struct User {
    pub id: i64,
    pub username: String,
    pub password_hash: String,
}

/// The credentials that a client sends to log in.
#[derive(Debug)]
pub struct LoginUser {
    pub username: String,
    pub password: String,
}

/// The body of a registration request.
#[derive(Debug)]
pub struct RegisterPost {
    pub username: String,
    pub password: String,
}

/// The answer to a successful login: the token to send back as
/// `Authorization: Bearer <token>`.
#[derive(Debug)]
pub struct LoginResponse {
    pub token: String,
}

/// A row of the `sessions` table.
#[derive(Debug)]
pub struct Session {
    pub token_hash: String,
    pub user_id: i64,
    pub expires_at: Timestamp,
}

/// A user about to be inserted: the name and the bcrypt hash of the password.
#[derive(Debug)]
pub struct NewUser {
    pub username: String,
    pub password_hash: String,
}

/// The outcome of `bcrypt::verify(password, hash)`: `Some(matches)`, or `None`
/// when bcrypt refuses the hash.
pub uninterp spec fn bcrypt_verdict(password: Seq<u8>, hash: Seq<char>) -> Option<bool>;

/// Calls `bcrypt::verify`. Trusted: the outcome is `bcrypt_verdict` of the
/// password's bytes and the hash text; a hash that is not 60 characters long
/// is refused (`split_hash` requires exactly 60 ASCII bytes).
#[verifier::external_body]
fn bcrypt_verify(password: &[u8], hash: &str) -> (verdict: Option<bool>)
    ensures
        verdict == bcrypt_verdict(password@, hash@),
        hash@.len() != 60 ==> verdict is None,
{
    match bcrypt::verify(password, hash) {
        Ok(b) => Some(b),
        Err(_) => None,
    }
}

/// How a bcrypt hash made with `cost` begins: version `2b`, then the cost
/// as two decimal digits, each between `$` signs: `$2b$10$` for cost 10.
pub open spec fn bcrypt_hash_prefix(cost: u32) -> Seq<char> {
    seq!['$', '2', 'b', '$', hex_digit(cost as int / 10), hex_digit(cost as int % 10), '$']
}

/// Calls `bcrypt::hash`. Trusted: a cost outside 4..=31 is refused; a hash
/// that comes back is 60 characters long, begins with `bcrypt_hash_prefix`
/// of the cost (it is written as `$2b$`, the cost in two digits, `$`, then
/// salt and digest), and `bcrypt::verify` accepts the same password against it (verification re-hashes the password with the
/// salt and cost parsed back from the hash). The salt is random, so which
/// hash comes back is not stated, and the call may fail when the random
/// source does; the error text is not stated either.
#[verifier::external_body]
fn bcrypt_hash(password: &[u8], cost: u32) -> (hashed: Result<String, String>)
    ensures
        hashed matches Ok(h) ==> {
            &&& h@.len() == 60
            &&& h@.take(7) == bcrypt_hash_prefix(cost)
            &&& bcrypt_verdict(password@, h@) == Some(true)
        },
        !(4 <= cost && cost <= 31) ==> hashed is Err,
{
    match bcrypt::hash(password, cost) {
        Ok(h) => Ok(h),
        Err(e) => Err(e.to_string()),
    }
}

/// Why a registration failed: hashing the password failed, with bcrypt's
/// error text. It is answered with 500 Internal Server Error.
#[derive(Debug)]
pub struct RegisterError {
    pub message: String,
}

impl RegisterError {
    /// The HTTP status of the answer: 500 Internal Server Error.
    pub fn status(&self) -> (code: u16)
        ensures
            code == 500,
    {
        500
    }
}

/// Prepares the user row for a registration: the same name, and a bcrypt hash
/// (cost 10) of the password that verifies that password. Whether hashing
/// succeeds rests on bcrypt's random salt source; `registration_outcome`
/// says what is answered for each outcome of it.
pub fn register(payload: RegisterPost) -> (r: Result<NewUser, RegisterError>)
    ensures
        r matches Ok(u) ==> {
            &&& u.username@ == payload.username@
            &&& u.password_hash@.len() == 60
            &&& u.password_hash@.take(7) == bcrypt_hash_prefix(PASSWORD_HASH_COST)
            &&& bcrypt_verdict(encode_utf8(payload.password@), u.password_hash@) == Some(true)
        },
{
    let hashed = bcrypt_hash(payload.password.as_str().as_bytes(), PASSWORD_HASH_COST);
    registration_outcome(payload, hashed)
}

/// The answer to a registration once hashing the password has answered: the
/// user row with that hash, or the hashing error's text.
pub fn registration_outcome(payload: RegisterPost, hashed: Result<String, String>) -> (r: Result<
    NewUser,
    RegisterError,
>)
    ensures
        match hashed {
            Ok(h) => r matches Ok(u) && u.username@ == payload.username@ && u.password_hash@ == h@,
            Err(m) => r matches Err(e) && e.message@ == m@,
        },
{
    match hashed {
        Ok(h) => Ok(NewUser { username: payload.username, password_hash: h }),
        Err(message) => Err(RegisterError { message }),
    }
}

/// Why a login was refused. Both are answered with 401 Unauthorized.
#[derive(Debug, Clone, Copy, PartialEq, Eq)]
pub enum LoginError {
    /// No such user, the lookup failed, or bcrypt refused the stored hash.
    InvalidCredentials,
    /// The password does not match the stored hash.
    InvalidPassword,
}

impl LoginError {
    /// The text of the answer for this refusal.
    pub open spec fn text(self) -> Seq<char> {
        match self {
            LoginError::InvalidCredentials => "Invalid credentials"@,
            LoginError::InvalidPassword => "Invalid password"@,
        }
    }

    /// The body of the answer for this refusal.
    pub fn message(&self) -> (m: &'static str)
        ensures
            m@ == self.text(),
    {
        match self {
            LoginError::InvalidCredentials => "Invalid credentials",
            LoginError::InvalidPassword => "Invalid password",
        }
    }

    /// The HTTP status of the answer: 401 Unauthorized.
    pub fn status(&self) -> (code: u16)
        ensures
            code == 401,
    {
        401
    }
}

/// The login decision once the user lookup and the password check are known:
/// the user's id when bcrypt says the password matches.
pub open spec fn credentials_verdict(user: Lookup<User>, verdict: Option<bool>) -> Result<i64, LoginError> {
    match user {
        Lookup::Found(u) => match verdict {
            Some(true) => Ok(u.id),
            Some(false) => Err(LoginError::InvalidPassword),
            None => Err(LoginError::InvalidCredentials),
        },
        _ => Err(LoginError::InvalidCredentials),
    }
}

/// The login decision for `password` against the user lookup.
pub open spec fn credentials_check(user: Lookup<User>, password: Seq<u8>) -> Result<i64, LoginError> {
    match user {
        Lookup::Found(u) => credentials_verdict(user, bcrypt_verdict(password, u.password_hash@)),
        _ => Err(LoginError::InvalidCredentials),
    }
}

/// Decides a login from the user lookup and the outcome of the password check
/// (`None` when the check was refused or not made).
pub fn credentials_outcome(user: &Lookup<User>, verdict: Option<bool>) -> (r: Result<i64, LoginError>)
    ensures
        r == credentials_verdict(*user, verdict),
{
    match user {
        Lookup::Found(u) => match verdict {
            Some(true) => Ok(u.id),
            Some(false) => Err(LoginError::InvalidPassword),
            None => Err(LoginError::InvalidCredentials),
        },
        _ => Err(LoginError::InvalidCredentials),
    }
}

/// Checks a password against the user lookup with bcrypt.
pub fn check_credentials(user: &Lookup<User>, password: &str) -> (r: Result<i64, LoginError>)
    ensures
        r == credentials_check(*user, encode_utf8(password@)),
        match *user {
            Lookup::Found(u) => match bcrypt_verdict(encode_utf8(password@), u.password_hash@) {
                Some(true) => r == Ok::<i64, LoginError>(u.id),
                Some(false) => r == Err::<i64, LoginError>(LoginError::InvalidPassword),
                None => r == Err::<i64, LoginError>(LoginError::InvalidCredentials),
            },
            _ => r == Err::<i64, LoginError>(LoginError::InvalidCredentials),
        },
{
    match user {
        Lookup::Found(u) => {
            let verdict = bcrypt_verify(password.as_bytes(), u.password_hash.as_str());
            credentials_outcome(user, verdict)
        },
        _ => credentials_outcome(user, None),
    }
}

/// What a successful login produces: the answer to the client, which carries
/// the token, and the session row to store, keyed by the token's hash.
#[derive(Debug)]
pub struct NewSession {
    pub response: LoginResponse,
    pub session: Session,
}

impl NewSession {
    /// The token handed to the client.
    pub open spec fn token(self) -> Seq<char> {
        self.response.token@
    }

    /// The row that authentication reads back for this session.
    pub open spec fn row(self) -> SessionRow {
        SessionRow { user_id: self.session.user_id, expires_at: self.session.expires_at }
    }

    /// This is the session opened at `now` for `user_id` with `token`: the
    /// client gets `token`, and the row is stored under the token's key and
    /// expires thirty days after `now`.
    pub open spec fn issued(self, user_id: i64, token: Seq<char>, now: Timestamp) -> bool {
        &&& self.response.token@ == token
        &&& self.session.token_hash@ == token_key(encode_utf8(token))
        &&& self.session.user_id == user_id
        &&& self.session.expires_at == expiry_of(now)
    }
}

/// Builds the session that a login at `now` opens with `token`.
pub fn session_for_token(user_id: i64, token: String, now: Timestamp) -> (s: NewSession)
    requires
        now.secs <= i64::MAX - SESSION_LIFETIME_SECS,
    ensures
        s.issued(user_id, token@, now),
{
    let token_hash = token_hash(token.as_str().as_bytes());
    let expires_at = session_expiry(now);
    NewSession {
        response: LoginResponse { token },
        session: Session { token_hash, user_id, expires_at },
    }
}

/// Opens a session for `user_id` at `now` with a fresh random token.
pub fn open_session(user_id: i64, now: Timestamp) -> (s: NewSession)
    requires
        now.secs <= i64::MAX - SESSION_LIFETIME_SECS,
    ensures
        s.issued(user_id, s.token(), now),
        is_v4_uuid_text(s.token()),
{
    let token = random_uuid_text();
    session_for_token(user_id, token, now)
}

/// Logs a user in: checks the password of `credentials` against the user
/// looked up by their name and, when it matches, opens a session with a
/// fresh token that expires thirty days after `now`.
pub fn login(user: &Lookup<User>, credentials: &LoginUser, now: Timestamp) -> (r: Result<NewSession, LoginError>)
    requires
        now.secs <= i64::MAX - SESSION_LIFETIME_SECS,
    ensures
        match credentials_check(*user, encode_utf8(credentials.password@)) {
            Ok(id) => r matches Ok(s) && s.issued(id, s.token(), now) && is_v4_uuid_text(s.token()),
            Err(e) => r matches Err(e2) && e2 == e,
        },
{
    match check_credentials(user, credentials.password.as_str()) {
        Ok(id) => Ok(open_session(id, now)),
        Err(e) => Err(e),
    }
}

/// A lowercase hyphenated UUID, encoded as UTF-8, is header text: every
/// byte is visible ASCII.
pub proof fn uuid_token_is_header_text(token: Seq<char>)
    requires
        is_v4_uuid_text(token),
    ensures
        all_visible_ascii(encode_utf8(token)),
        encode_utf8(token).len() == token.len(),
{
    assert(is_ascii_chars(token)) by {
        assert forall|i: int| 0 <= i < token.len() implies '\0' <= #[trigger] token[i] <= '\u{7f}' by {
            assert(0 <= i < 36);
        }
    }
    is_ascii_chars_encode_utf8(token);
    let bytes = encode_utf8(token);
    assert forall|i: int| 0 <= i < bytes.len() implies is_visible_ascii(#[trigger] bytes[i]) by {
        assert(token[i] as u8 == bytes[i]);
        assert(0 <= i < 36);
    }
}

/// A session opened at login authenticates the token it was opened with:
/// the header `Bearer <token>` that the client sends is looked up under the
/// very key the session is stored under, and the row found grants access to
/// the session's user up to and including its expiry, thirty days after the
/// login; once that moment has passed, the same row is answered as expired.
pub proof fn issued_session_authenticates(
    s: NewSession,
    user_id: i64,
    login_time: Timestamp,
    check_time: Timestamp,
)
    requires
        s.issued(user_id, s.token(), login_time),
        all_visible_ascii(encode_utf8(s.token())),
    ensures
        lookup_key_of(Some(bearer_prefix() + encode_utf8(s.token()))) == Some(s.session.token_hash@),
        s.session.expires_at == expiry_of(login_time),
        !s.session.expires_at.precedes(check_time) ==> decision_for(Lookup::Found(s.row()), check_time)
            == (AuthDecision::Grant { user_id }),
        s.session.expires_at.precedes(check_time) ==> decision_for(Lookup::Found(s.row()), check_time)
            == (AuthDecision::Expire { user_id }),
{
    let bytes = encode_utf8(s.token());
    let header = bearer_prefix() + bytes;
    assert(header.take(7) =~= bearer_prefix());
    assert(header.skip(7) =~= bytes);
    assert forall|i: int| 0 <= i < header.len() implies is_visible_ascii(#[trigger] header[i]) by {
        if i >= 7 {
            assert(header[i] == bytes[i - 7]);
        }
    }
    assert(bearer_of(header) == Some(bytes));
}

/// A password that registration hashed logs in: against the user row stored
/// with that hash, the login check of the same password grants that user.
pub proof fn registered_password_logs_in(user: User, password: Seq<char>)
    requires
        bcrypt_verdict(encode_utf8(password), user.password_hash@) == Some(true),
    ensures
        credentials_check(Lookup::Found(user), encode_utf8(password)) == Ok::<i64, LoginError>(user.id),
{
}

/// Only the stored password logs in: for a found user, the login check grants
/// that user exactly when bcrypt accepts the password against the stored
/// hash, refuses with "Invalid password" exactly when bcrypt rejects it, and
/// with "Invalid credentials" when bcrypt refuses the hash, whatever the
/// password; without a found user it always refuses with "Invalid
/// credentials".
pub proof fn only_matching_password_logs_in(user: Lookup<User>, password: Seq<u8>)
    ensures
        user matches Lookup::Found(u) ==> {
            &&& (credentials_check(user, password) is Ok
                <==> bcrypt_verdict(password, u.password_hash@) == Some(true))
            &&& (credentials_check(user, password) is Ok ==> credentials_check(user, password)
                == Ok::<i64, LoginError>(u.id))
            &&& (credentials_check(user, password) == Err::<i64, LoginError>(LoginError::InvalidPassword)
                <==> bcrypt_verdict(password, u.password_hash@) == Some(false))
            &&& (credentials_check(user, password) == Err::<i64, LoginError>(LoginError::InvalidCredentials)
                <==> bcrypt_verdict(password, u.password_hash@) is None)
        },
        !(user is Found) ==> credentials_check(user, password) == Err::<i64, LoginError>(
            LoginError::InvalidCredentials,
        ),
{
}

} // verus!
