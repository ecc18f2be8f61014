//! Session tokens and the digests under which sessions are stored.

use vstd::prelude::*;

verus! {

/// The SHA-256 digest of `data`.
pub uninterp spec fn sha256(data: Seq<u8>) -> Seq<u8>;

/// Calls `sha2::Sha256::digest`. Trusted: the result is the SHA-256 digest
/// of `data` (named `sha256`), and it is 32 bytes long, the output size of
/// `Sha256`.
#[verifier::external_body]
fn sha256_digest(data: &[u8]) -> (digest: Vec<u8>)
    ensures
        digest@ == sha256(data@),
        digest@.len() == 32,
{
    <sha2::Sha256 as sha2::Digest>::digest(data).to_vec()
}

/// The lowercase hexadecimal digit for a value below sixteen.
pub open spec fn hex_digit(n: int) -> char {
    if n < 10 {
        (n + 48) as char
    } else {
        (n + 87) as char
    }
}

/// Lowercase hexadecimal encoding: two digits per byte, high nibble first.
pub open spec fn lower_hex(data: Seq<u8>) -> Seq<char> {
    Seq::new(
        (2 * data.len()) as nat,
        |j: int|
            if j % 2 == 0 {
                hex_digit(data[j / 2] as int / 16)
            } else {
                hex_digit(data[j / 2] as int % 16)
            },
    )
}

/// `c` is one of `0-9` or `a-f`.
pub open spec fn is_lower_hex_char(c: char) -> bool {
    ('0' <= c && c <= '9') || ('a' <= c && c <= 'f')
}

/// Calls `hex::encode`. Trusted: the result is the lowercase hexadecimal
/// encoding of `data`, two characters per byte, high nibble first (table
/// `0123456789abcdef`).
#[verifier::external_body]
fn hex_encode(data: &[u8]) -> (text: String)
    ensures
        text@ == lower_hex(data@),
{
    hex::encode(data)
}

/// The key under which a session for `token` is stored: the lowercase hex
/// encoding of the SHA-256 digest of the token's bytes.
pub open spec fn token_key(token: Seq<u8>) -> Seq<char> {
    lower_hex(sha256(token))
}

/// Hashes a token into the key of its session row.
pub fn token_hash(token: &[u8]) -> (key: String)
    ensures
        key@ == token_key(token@),
        key@ == lower_hex(sha256(token@)),
        key@.len() == 64,
        forall|i: int| 0 <= i < key@.len() ==> is_lower_hex_char(#[trigger] key@[i]),
{
    let digest = sha256_digest(token);
    let key = hex_encode(digest.as_slice());
    assert forall|i: int| 0 <= i < key@.len() implies is_lower_hex_char(#[trigger] key@[i]) by {
        let b = digest@[i / 2];
        assert(0 <= b / 16 < 16 && 0 <= b % 16 < 16);
    }
    key
}

/// Positions of the hyphens in the hyphenated form of a UUID.
pub open spec fn is_uuid_hyphen_position(i: int) -> bool {
    i == 8 || i == 13 || i == 18 || i == 23
}

/// `s` is the lowercase hyphenated text of a random (version 4, RFC 4122
/// variant) UUID: 36 characters, hyphens at 8, 13, 18 and 23, lowercase
/// hexadecimal elsewhere, `4` at 14 and one of `8`, `9`, `a`, `b` at 19.
pub open spec fn is_v4_uuid_text(s: Seq<char>) -> bool {
    &&& s.len() == 36
    &&& forall|i: int|
        0 <= i < 36 ==> if is_uuid_hyphen_position(i) {
            s[i] == '-'
        } else {
            is_lower_hex_char(#[trigger] s[i])
        }
    &&& s[14] == '4'
    &&& (s[19] == '8' || s[19] == '9' || s[19] == 'a' || s[19] == 'b')
}

/// Calls `uuid::Uuid::new_v4` and formats the result with `to_string`.
/// Trusted: whatever the random bytes, the text is a lowercase hyphenated
/// version 4 UUID (`new_v4` masks in the version and variant bits; `Display`
/// writes the lowercase hyphenated form). Which UUID comes out is not stated:
/// it is random, and two calls may differ. The call panics only if the
/// operating system's random source fails, which no argument controls.
#[verifier::external_body]
pub(crate) fn random_uuid_text() -> (text: String)
    ensures
        is_v4_uuid_text(text@),
{
    uuid::Uuid::new_v4().to_string()
}

/// The value of a lowercase hexadecimal digit.
pub open spec fn hex_value(c: char) -> int {
    if '0' <= c && c <= '9' {
        c as int - 48
    } else {
        c as int - 87
    }
}

/// The session key is the encoding of the digest of the whole token: it has
/// two characters for each of the digest's bytes, and each pair of
/// characters spells that byte in lowercase hexadecimal, high digit first,
/// whatever the token's length.
pub proof fn key_spells_digest_of_whole_token(token: Seq<u8>)
    ensures
        token_key(token) == lower_hex(sha256(token)),
        token_key(token).len() == 2 * sha256(token).len(),
        forall|i: int|
            0 <= i < sha256(token).len() ==> {
                &&& is_lower_hex_char(#[trigger] token_key(token)[2 * i])
                &&& is_lower_hex_char(token_key(token)[2 * i + 1])
                &&& 16 * hex_value(token_key(token)[2 * i]) + hex_value(token_key(token)[2 * i + 1])
                    == sha256(token)[i]
            },
{
    let d = sha256(token);
    let k = token_key(token);
    assert forall|i: int| 0 <= i < d.len() implies {
        &&& is_lower_hex_char(#[trigger] k[2 * i])
        &&& is_lower_hex_char(k[2 * i + 1])
        &&& 16 * hex_value(k[2 * i]) + hex_value(k[2 * i + 1]) == d[i]
    } by {
        assert((2 * i) % 2 == 0 && (2 * i) / 2 == i);
        assert((2 * i + 1) % 2 == 1 && (2 * i + 1) / 2 == i);
        let b = d[i] as int;
        assert(b == 16 * (b / 16) + b % 16);
        assert(0 <= b / 16 < 16 && 0 <= b % 16 < 16);
    }
}

} // verus!
