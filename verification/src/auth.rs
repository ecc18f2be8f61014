//! Bearer-token authentication of protected requests.
//!
//! A request is authenticated in two steps around one database lookup:
//! `session_key_from_header` turns the `Authorization` header into the key of
//! a session row, and `authorize` decides from the row that was found (if
//! any) and the current time.

use vstd::prelude::*;

use crate::store::Lookup;
use crate::time::Timestamp;
use crate::token::{token_hash, token_key};

verus! {

/// Why a protected request was refused.
#[derive(Debug, Clone, Copy, PartialEq, Eq)]
pub enum AuthError {
    /// The `Authorization` header is absent, is not visible ASCII, or does
    /// not start with `Bearer `.
    InvalidHeader,
    /// No session is stored under the token's key, or the lookup failed.
    InvalidSession,
    /// The session was found but its expiry has passed.
    SessionExpired,
}

impl AuthError {
    /// The text of the answer for this refusal.
    pub open spec fn text(self) -> Seq<char> {
        match self {
            AuthError::InvalidHeader => "Invalid authorization header"@,
            AuthError::InvalidSession => "Invalid session token"@,
            AuthError::SessionExpired => "Session expired"@,
        }
    }

    /// The body of the answer for this refusal.
    pub fn message(&self) -> (m: &'static str)
        ensures
            m@ == self.text(),
    {
        match self {
            AuthError::InvalidHeader => "Invalid authorization header",
            AuthError::InvalidSession => "Invalid session token",
            AuthError::SessionExpired => "Session expired",
        }
    }

    /// The HTTP status of the answer: 401 Unauthorized for every refusal.
    pub fn status(&self) -> (code: u16)
        ensures
            code == 401,
    {
        401
    }
}

/// The bytes that `http::HeaderValue::to_str` accepts: visible ASCII and tab.
pub open spec fn is_visible_ascii(b: u8) -> bool {
    (32 <= b && b < 127) || b == 9
}

/// Every byte of `bytes` is visible ASCII or tab.
pub open spec fn all_visible_ascii(bytes: Seq<u8>) -> bool {
    forall|i: int| 0 <= i < bytes.len() ==> is_visible_ascii(#[trigger] bytes[i])
}

/// The bytes of `Bearer ` (with its trailing space).
pub open spec fn bearer_prefix() -> Seq<u8> {
    seq![66u8, 101u8, 97u8, 114u8, 101u8, 114u8, 32u8]
}

/// The token carried by an `Authorization` header value: the header must be
/// text (visible ASCII) that starts with `Bearer `; the token is the rest.
pub open spec fn bearer_of(header: Seq<u8>) -> Option<Seq<u8>> {
    if all_visible_ascii(header) && header.len() >= 7 && header.take(7) == bearer_prefix() {
        Some(header.skip(7))
    } else {
        None
    }
}

/// The session key that a request with this `Authorization` header (if any)
/// is looked up under, or `None` when the header is refused.
pub open spec fn lookup_key_of(header: Option<Seq<u8>>) -> Option<Seq<char>> {
    match header {
        Some(h) => match bearer_of(h) {
            Some(t) => Some(token_key(t)),
            None => None,
        },
        None => None,
    }
}

/// Extracts the bearer token from the bytes of an `Authorization` header.
pub fn bearer_token(header: &[u8]) -> (token: Option<Vec<u8>>)
    ensures
        token is None <==> bearer_of(header@) is None,
        token matches Some(t) ==> bearer_of(header@) == Some(t@),
{
    let n = header.len();
    let mut i: usize = 0;
    while i < n
        invariant
            n == header@.len(),
            i <= n,
            forall|k: int| 0 <= k < i ==> is_visible_ascii(#[trigger] header@[k]),
        decreases n - i,
    {
        let b = header[i];
        if !((32 <= b && b < 127) || b == 9) {
            return None;
        }
        i = i + 1;
    }
    assert(all_visible_ascii(header@));
    if n < 7 {
        return None;
    }
    if !(header[0] == 66 && header[1] == 101 && header[2] == 97 && header[3] == 114
        && header[4] == 101 && header[5] == 114 && header[6] == 32) {
        assert(header@.take(7) != bearer_prefix());
        return None;
    }
    assert(header@.take(7) =~= bearer_prefix());
    let mut token: Vec<u8> = Vec::new();
    let mut j: usize = 7;
    while j < n
        invariant
            n == header@.len(),
            7 <= j <= n,
            token@ =~= header@.subrange(7, j as int),
        decreases n - j,
    {
        token.push(header[j]);
        j = j + 1;
    }
    assert(token@ =~= header@.skip(7));
    Some(token)
}

/// The bytes of an optional header value.
pub open spec fn header_bytes(header: Option<&[u8]>) -> Option<Seq<u8>> {
    match header {
        Some(h) => Some(h@),
        None => None,
    }
}

/// The key of the session row that authenticates a request carrying this
/// `Authorization` header (`None` when the request has none). A refused
/// header is answered with `InvalidHeader`.
pub fn session_key_from_header(header: Option<&[u8]>) -> (key: Result<String, AuthError>)
    ensures
        match lookup_key_of(header_bytes(header)) {
            Some(k) => key matches Ok(s) && s@ == k,
            None => key == Err::<String, AuthError>(AuthError::InvalidHeader),
        },
{
    match header {
        None => Err(AuthError::InvalidHeader),
        Some(h) => match bearer_token(h) {
            None => Err(AuthError::InvalidHeader),
            Some(t) => Ok(token_hash(t.as_slice())),
        },
    }
}

/// A stored session as authentication reads it.
#[derive(Debug, Clone, Copy, PartialEq, Eq)]
pub struct SessionRow {
    pub user_id: i64,
    pub expires_at: Timestamp,
}

/// What to do with a request once its session lookup has answered.
#[derive(Debug, Clone, Copy, PartialEq, Eq)]
pub enum AuthDecision {
    /// Let the request through on behalf of this user.
    Grant { user_id: i64 },
    /// Refuse the request.
    Deny(AuthError),
    /// Delete this user's sessions, then refuse with `SessionExpired`.
    Expire { user_id: i64 },
}

/// The decision for a session lookup at time `now`: a missing row or a failed
/// lookup is an invalid session; a row whose expiry comes strictly before
/// `now` has expired; any other row grants access to its user.
pub open spec fn decision_for(lookup: Lookup<SessionRow>, now: Timestamp) -> AuthDecision {
    match lookup {
        Lookup::Found(row) => if row.expires_at.precedes(now) {
            AuthDecision::Expire { user_id: row.user_id }
        } else {
            AuthDecision::Grant { user_id: row.user_id }
        },
        Lookup::Missing => AuthDecision::Deny(AuthError::InvalidSession),
        Lookup::Failed => AuthDecision::Deny(AuthError::InvalidSession),
    }
}

/// Decides a protected request from its session lookup and the current time.
pub fn authorize(lookup: Lookup<SessionRow>, now: Timestamp) -> (d: AuthDecision)
    ensures
        d == decision_for(lookup, now),
        lookup is Missing ==> d == AuthDecision::Deny(AuthError::InvalidSession),
        lookup is Failed ==> d == AuthDecision::Deny(AuthError::InvalidSession),
        d is Grant ==> (lookup matches Lookup::Found(row) && d == (AuthDecision::Grant { user_id: row.user_id })
            && !row.expires_at.precedes(now)),
        d is Expire ==> (lookup matches Lookup::Found(row) && d == (AuthDecision::Expire { user_id: row.user_id })
            && row.expires_at.precedes(now)),
{
    match lookup {
        Lookup::Found(row) => if row.expires_at.is_before(&now) {
            AuthDecision::Expire { user_id: row.user_id }
        } else {
            AuthDecision::Grant { user_id: row.user_id }
        },
        Lookup::Missing => AuthDecision::Deny(AuthError::InvalidSession),
        Lookup::Failed => AuthDecision::Deny(AuthError::InvalidSession),
    }
}

/// Only a stored session lets a request through: whatever the time, a
/// lookup that found no row, or that failed, is refused as an invalid
/// session; a found row is granted to its own user while its expiry has not
/// passed, and otherwise is answered as expired for that user, never denied
/// outright.
pub proof fn only_live_sessions_grant(lookup: Lookup<SessionRow>, now: Timestamp)
    ensures
        lookup is Missing ==> decision_for(lookup, now) == AuthDecision::Deny(AuthError::InvalidSession),
        lookup is Failed ==> decision_for(lookup, now) == AuthDecision::Deny(AuthError::InvalidSession),
        forall|user_id: i64|
            decision_for(lookup, now) == (AuthDecision::Grant { user_id }) ==> (lookup matches Lookup::Found(row)
                && row.user_id == user_id && !row.expires_at.precedes(now)),
        lookup matches Lookup::Found(row) ==> {
            &&& !row.expires_at.precedes(now) ==> decision_for(lookup, now)
                == (AuthDecision::Grant { user_id: row.user_id })
            &&& row.expires_at.precedes(now) ==> decision_for(lookup, now)
                == (AuthDecision::Expire { user_id: row.user_id })
        },
{
}

} // verus!
