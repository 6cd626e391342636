//! Authenticated encryption of byte strings under a 256-bit key (AES-256-GCM).
//!
//! A sealed message is the 12-byte nonce followed by the ciphertext and its tag.
use aes_gcm::aead::{Aead, AeadCore, KeyInit, OsRng};
use aes_gcm::{Aes256Gcm, Key, Nonce};
use vstd::prelude::*;
use vstd::slice::slice_subrange;

verus! {

/// A 256-bit symmetric key.
pub type AESKey = [u8; 32];

/// Length of the nonce that starts every sealed message.
pub const NONCE_LEN: usize = 12;

/// Length of the authentication tag that ends every ciphertext.
pub const TAG_LEN: usize = 16;

/// Largest plaintext, in bytes, that AES-GCM seals.
pub const PLAINTEXT_MAX: u64 = 68719476736;

#[derive(Debug)]
pub enum AESError {
    Encrypt(String),
    Decrypt(String),
}

pub type AESResult = Result<Vec<u8>, AESError>;

/// What AES-256-GCM makes of a plaintext under a key and nonce, tag included.
pub uninterp spec fn aes_gcm_seal(key: Seq<u8>, nonce: Seq<u8>, plaintext: Seq<u8>) -> Seq<u8>;

/// What AES-256-GCM recovers from a ciphertext under a key and nonce; `None` when
/// the tag does not authenticate it.
pub uninterp spec fn aes_gcm_open(key: Seq<u8>, nonce: Seq<u8>, ciphertext: Seq<u8>) -> Option<Seq<u8>>;

/// The nonce followed by the sealed plaintext.
pub open spec fn sealed_message(key: Seq<u8>, nonce: Seq<u8>, m: Seq<u8>) -> Seq<u8> {
    nonce + aes_gcm_seal(key, nonce, m)
}

/// The plaintext of a message laid out as nonce and ciphertext, if it authenticates.
pub open spec fn opened_message(key: Seq<u8>, data: Seq<u8>) -> Option<Seq<u8>> {
    if data.len() < NONCE_LEN {
        None
    } else {
        aes_gcm_open(key, data.subrange(0, NONCE_LEN as int), data.subrange(NONCE_LEN as int, data.len() as int))
    }
}

/// Relies on `Aes256Gcm::generate_nonce` with the operating system's random source.
#[verifier::external_body]
pub(crate) fn random_nonce() -> (r: [u8; 12]) {
    Aes256Gcm::generate_nonce(&mut OsRng).into()
}

/// Relies on `Aead::encrypt` of `Aes256Gcm`, which fails only on a plaintext
/// longer than `P_MAX` (2^36 bytes).
#[verifier::external_body]
fn aes_seal(key: &AESKey, nonce: &[u8; 12], plaintext: &[u8]) -> (r: Option<Vec<u8>>)
    ensures
        r is Some <==> plaintext@.len() <= PLAINTEXT_MAX,
        r matches Some(c) ==> c@ == aes_gcm_seal(key@, nonce@, plaintext@),
        r matches Some(c) ==> c@.len() == plaintext@.len() + TAG_LEN,
{
    let cipher = Aes256Gcm::new(Key::<Aes256Gcm>::from_slice(key));
    cipher.encrypt(Nonce::from_slice(nonce), plaintext).ok()
}

/// Relies on `Aead::decrypt` of `Aes256Gcm`: it returns the plaintext that was
/// sealed under the same key and nonce, and fails when the tag does not match
/// or there is no room for one.
#[verifier::external_body]
fn aes_open(key: &AESKey, nonce: &[u8; 12], ciphertext: &[u8]) -> (r: Option<Vec<u8>>)
    ensures
        r matches Some(p) ==> aes_gcm_open(key@, nonce@, ciphertext@) == Some(p@),
        r is None ==> aes_gcm_open(key@, nonce@, ciphertext@) is None,
        r is Some ==> ciphertext@.len() >= TAG_LEN,
        r is None ==> forall|m: Seq<u8>| m.len() > PLAINTEXT_MAX || #[trigger] aes_gcm_seal(key@, nonce@, m) != ciphertext@,
        r matches Some(p) ==> forall|m: Seq<u8>| m.len() <= PLAINTEXT_MAX && #[trigger] aes_gcm_seal(key@, nonce@, m) == ciphertext@ ==> p@ == m,
{
    let cipher = Aes256Gcm::new(Key::<Aes256Gcm>::from_slice(key));
    cipher.decrypt(Nonce::from_slice(nonce), ciphertext).ok()
}

/// Seals `data` under `key` with the given nonce.
pub fn encrypt_with_nonce(key: &AESKey, nonce: &[u8; 12], data: &[u8]) -> (r: AESResult)
    ensures
        r is Ok <==> data@.len() <= PLAINTEXT_MAX,
        r matches Ok(c) ==> c@ == sealed_message(key@, nonce@, data@),
        r matches Ok(c) ==> c@.len() == NONCE_LEN + data@.len() + TAG_LEN,
        r matches Err(e) ==> e is Encrypt,
{
    match aes_seal(key, nonce, data) {
        Some(c) => {
            let mut out: Vec<u8> = Vec::new();
            let mut i: usize = 0;
            while i < NONCE_LEN
                invariant
                    i <= NONCE_LEN,
                    out@ =~= nonce@.subrange(0, i as int),
                decreases NONCE_LEN - i,
            {
                out.push(nonce[i]);
                i = i + 1;
            }
            let mut j: usize = 0;
            while j < c.len()
                invariant
                    j <= c@.len(),
                    out@ =~= nonce@ + c@.subrange(0, j as int),
                decreases c@.len() - j,
            {
                out.push(c[j]);
                j = j + 1;
            }
            assert(c@.subrange(0, j as int) =~= c@);
            Ok(out)
        },
        None => Err(AESError::Encrypt("plaintext too long".to_string())),
    }
}

/// Seals `data` under `key` with a fresh random nonce; the result is the nonce
/// followed by the ciphertext.
pub fn encrypt(key: &AESKey, data: &[u8]) -> (r: AESResult)
    ensures
        r is Ok <==> data@.len() <= PLAINTEXT_MAX,
        r matches Ok(c) ==> exists|n: Seq<u8>|
            n.len() == NONCE_LEN && c@ == #[trigger] sealed_message(key@, n, data@),
        r matches Ok(c) ==> c@.len() == NONCE_LEN + data@.len() + TAG_LEN,
        r matches Err(e) ==> e is Encrypt,
{
    let nonce = random_nonce();
    let r = encrypt_with_nonce(key, &nonce, data);
    proof {
        if r is Ok {
            assert(nonce@.len() == NONCE_LEN);
        }
    }
    r
}

/// Opens a message laid out as nonce and ciphertext. It fails on input shorter
/// than the nonce, and where the tag does not authenticate the ciphertext.
pub fn decrypt(key: &AESKey, data: &[u8]) -> (r: AESResult)
    ensures
        match r {
            Ok(p) => opened_message(key@, data@) == Some(p@),
            Err(e) => opened_message(key@, data@) is None && e is Decrypt,
        },
        data@.len() < NONCE_LEN + TAG_LEN ==> r is Err,
        forall|n: Seq<u8>, m: Seq<u8>|
            n.len() == NONCE_LEN && m.len() <= PLAINTEXT_MAX && data@ == #[trigger] sealed_message(key@, n, m)
                ==> (r matches Ok(p) && p@ == m),
{
    if data.len() < NONCE_LEN {
        assert forall|n: Seq<u8>, m: Seq<u8>|
            n.len() == NONCE_LEN && data@ == #[trigger] sealed_message(key@, n, m) implies false by {
            assert(data@.len() >= n.len());
        }
        return Err(AESError::Decrypt("message shorter than its nonce".to_string()));
    }
    let mut nonce = [0u8; 12];
    let mut i: usize = 0;
    while i < NONCE_LEN
        invariant
            i <= NONCE_LEN,
            data@.len() >= NONCE_LEN,
            forall|k: int| 0 <= k < i ==> nonce@[k] == data@[k],
        decreases NONCE_LEN - i,
    {
        nonce[i] = data[i];
        i = i + 1;
    }
    assert(nonce@ =~= data@.subrange(0, NONCE_LEN as int));
    let body = slice_subrange(data, NONCE_LEN, data.len());
    let opened = aes_open(key, &nonce, body);
    assert forall|n: Seq<u8>, m: Seq<u8>|
        n.len() == NONCE_LEN && m.len() <= PLAINTEXT_MAX && data@ == #[trigger] sealed_message(key@, n, m)
            implies (opened matches Some(p) && p@ == m) by {
        assert(n =~= data@.subrange(0, NONCE_LEN as int));
        assert(body@ =~= aes_gcm_seal(key@, nonce@, m));
    }
    match opened {
        Some(p) => Ok(p),
        None => Err(AESError::Decrypt("message does not authenticate".to_string())),
    }
}

} // verus!
