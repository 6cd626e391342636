//! Salted Argon2 password hashing, verification, and the AES key that a
//! verified password hash yields.
use crate::cipher::AESKey;
use vstd::utf8::encode_utf8;
use argon2::password_hash::rand_core::OsRng;
use argon2::password_hash::{PasswordHash, PasswordHasher, PasswordVerifier, SaltString};
use argon2::Argon2;
use vstd::prelude::*;

verus! {

/// Length of the key taken from the front of a password hash's output.
pub const KEY_LEN: usize = 32;

/// Longest password, in bytes, that Argon2 hashes (`MAX_PWD_LEN`).
pub const MAX_PASSWORD_LEN: usize = 0xFFFF_FFFF;

/// Characters in the base64 text of a 16-byte salt.
pub const SALT_TEXT_LEN: usize = 22;

/// A character of the standard base64 alphabet.
pub open spec fn is_b64_char(c: char) -> bool {
    ('A' <= c && c <= 'Z') || ('a' <= c && c <= 'z') || ('0' <= c && c <= '9') || c == '+' || c == '/'
}

/// Unpadded base64 text of 16 bytes: 22 characters, the last of which carries
/// only two bits (`A`, `Q`, `g` or `w`).
pub open spec fn salt_text_valid(s: Seq<char>) -> bool {
    &&& s.len() == SALT_TEXT_LEN
    &&& forall|i: int| 0 <= i < s.len() ==> is_b64_char(#[trigger] s[i])
    &&& (s.last() == 'A' || s.last() == 'Q' || s.last() == 'g' || s.last() == 'w')
}

/// How every PHC text of Argon2id begins.
pub open spec fn argon2id_tag() -> Seq<char> {
    seq!['$', 'a', 'r', 'g', 'o', 'n', '2', 'i', 'd', '$']
}

/// The password's length in UTF-8 bytes is within what Argon2 hashes.
pub open spec fn password_len_valid(password: Seq<char>) -> bool {
    encode_utf8(password).len() <= MAX_PASSWORD_LEN
}

#[derive(Debug)]
pub enum AuthError {
    Failed,
    Parser(String),
}

pub type AuthResult = Result<AESKey, AuthError>;

/// The PHC text that Argon2 with its default parameters writes for a password
/// and a base64 salt, if it accepts them.
pub uninterp spec fn argon2_record(password: Seq<char>, salt: Seq<char>) -> Option<Seq<char>>;

/// The hash output recorded in a PHC text, if the text parses and records one.
pub uninterp spec fn phc_hash_output(record: Seq<char>) -> Option<Seq<u8>>;

/// Whether Argon2 accepts a password against a PHC text.
pub uninterp spec fn argon2_verifies(password: Seq<char>, record: Seq<char>) -> bool;

/// Relies on `SaltString::generate` with the operating system's random source:
/// it writes 16 random bytes as unpadded base64.
#[verifier::external_body]
pub(crate) fn random_salt() -> (r: String)
    ensures
        salt_text_valid(r@),
{
    SaltString::generate(&mut OsRng).as_str().to_string()
}

/// Relies on `SaltString::from_b64`, `PasswordHasher::hash_password` of
/// `Argon2::default()` and the PHC text of its result. A 16-byte salt is within
/// the salt bounds; it fails only on a password over `MAX_PWD_LEN` bytes. The
/// default algorithm is Argon2id, so the text begins `$argon2id$`.
#[verifier::external_body]
pub(crate) fn hash_with_salt(password: &str, salt: &str) -> (r: Option<String>)
    ensures
        r matches Some(h) ==> argon2_record(password@, salt@) == Some(h@),
        r is None ==> argon2_record(password@, salt@) is None,
        r is None ==> !(salt_text_valid(salt@) && password_len_valid(password@)),
        r is Some ==> password_len_valid(password@),
        r matches Some(h) ==> h@.len() > 10 && h@.subrange(0, 10) == argon2id_tag(),
{
    let salt = match SaltString::from_b64(salt) {
        Ok(s) => s,
        Err(_) => return None,
    };
    match Argon2::default().hash_password(password.as_bytes(), &salt) {
        Ok(h) => Some(h.to_string()),
        Err(_) => None,
    }
}

/// Relies on `PasswordHash::new` and its `hash` field. A text that
/// `hash_with_salt` wrote parses and records the default 32-byte output
/// (`Params::DEFAULT_OUTPUT_LEN`).
#[verifier::external_body]
fn hash_output(record: &str) -> (r: Option<Vec<u8>>)
    ensures
        r matches Some(o) ==> phc_hash_output(record@) == Some(o@),
        r is None ==> phc_hash_output(record@) is None,
        r is None ==> forall|p: Seq<char>, s: Seq<char>| #[trigger] argon2_record(p, s) != Some(record@),
        r matches Some(o) ==> forall|p: Seq<char>, s: Seq<char>| #[trigger] argon2_record(p, s) == Some(record@) ==> o@.len() == KEY_LEN,
{
    match PasswordHash::new(record) {
        Ok(h) => match h.hash {
            Some(o) => Some(o.as_bytes().to_vec()),
            None => None,
        },
        Err(_) => None,
    }
}

/// Relies on `PasswordVerifier::verify_password` of `Argon2::default()`, which
/// hashes the password again under the salt and parameters of the text and
/// compares: a text written for the same password verifies.
#[verifier::external_body]
fn verify_with_record(password: &str, record: &str) -> (r: bool)
    ensures
        r == argon2_verifies(password@, record@),
        !r ==> forall|s: Seq<char>| #[trigger] argon2_record(password@, s) != Some(record@),
{
    match PasswordHash::new(record) {
        Ok(h) => Argon2::default().verify_password(password.as_bytes(), &h).is_ok(),
        Err(_) => false,
    }
}

/// The AES key that a PHC text yields: the first `KEY_LEN` bytes of its output.
pub open spec fn record_key(record: Seq<char>) -> Option<Seq<u8>> {
    match phc_hash_output(record) {
        Some(o) => if o.len() >= KEY_LEN {
            Some(o.subrange(0, KEY_LEN as int))
        } else {
            None
        },
        None => None,
    }
}

/// Hashes a password under a fresh random salt; the result is the PHC text.
/// It fails only on a password too long for Argon2.
pub fn hash(password: &str) -> (r: Option<String>)
    ensures
        r is Some <==> password_len_valid(password@),
        r matches Some(h) ==> exists|s: Seq<char>|
            salt_text_valid(s) && #[trigger] argon2_record(password@, s) == Some(h@),
        r matches Some(h) ==> h@.len() > 10 && h@.subrange(0, 10) == argon2id_tag(),
{
    let salt = random_salt();
    hash_with_salt(password, salt.as_str())
}

/// The AES key that a PHC text yields, if it parses with a long enough output.
pub fn record_key_bytes(record: &str) -> (r: Option<AESKey>)
    ensures
        r matches Some(k) ==> record_key(record@) == Some(k@),
        r is None ==> record_key(record@) is None,
        r is None ==> forall|p: Seq<char>, s: Seq<char>| #[trigger] argon2_record(p, s) != Some(record@),
{
    let out = match hash_output(record) {
        Some(o) => o,
        None => return None,
    };
    if out.len() < KEY_LEN {
        return None;
    }
    let mut key = [0u8; 32];
    let mut i: usize = 0;
    while i < KEY_LEN
        invariant
            i <= KEY_LEN,
            out@.len() >= KEY_LEN,
            forall|k: int| 0 <= k < i ==> key@[k] == out@[k],
        decreases KEY_LEN - i,
    {
        key[i] = out[i];
        i = i + 1;
    }
    assert(key@ =~= out@.subrange(0, KEY_LEN as int));
    Some(key)
}

/// Checks a password against a PHC text and, where it verifies, returns the
/// AES key that the text yields.
pub fn verify(password: &str, record: &str) -> (r: AuthResult)
    ensures
        r matches Ok(k) ==> record_key(record@) == Some(k@) && argon2_verifies(password@, record@),
        r matches Err(e) ==> (e is Parser <==> record_key(record@) is None),
        r matches Err(e) ==> (e is Failed <==> record_key(record@) is Some && !argon2_verifies(password@, record@)),
        forall|s: Seq<char>| #[trigger] argon2_record(password@, s) == Some(record@) ==> (r is Ok),
{
    let key = match record_key_bytes(record) {
        Some(k) => k,
        None => return Err(AuthError::Parser("password hash does not parse".to_string())),
    };
    if !verify_with_record(password, record) {
        return Err(AuthError::Failed);
    }
    Ok(key)
}

} // verus!
