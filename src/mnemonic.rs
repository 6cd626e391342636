//! BIP-39 mnemonic phrases: fresh ones from random entropy, and the seed that a
//! phrase and a passphrase give.
use bip39::Mnemonic;
use rand::RngCore;
use rand_core::OsRng;
use vstd::prelude::*;

verus! {

/// Bytes of entropy behind a fresh phrase (24 words).
pub const ENTROPY_LEN: usize = 32;

/// Bytes of the seed that a phrase gives.
pub const SEED_LEN: usize = 64;

/// The English phrase that BIP-39 writes for some entropy.
pub uninterp spec fn bip39_phrase(entropy: Seq<u8>) -> Seq<char>;

/// The 64-byte seed that BIP-39 derives from a phrase and a passphrase, if the
/// phrase parses.
pub uninterp spec fn bip39_seed(phrase: Seq<char>, passphrase: Seq<char>) -> Option<Seq<u8>>;

/// Relies on `RngCore::fill_bytes` of the operating system's random source.
#[verifier::external_body]
pub(crate) fn random_entropy() -> (r: [u8; 32]) {
    let mut entropy = [0u8; 32];
    OsRng.fill_bytes(&mut entropy);
    entropy
}

/// Relies on `Mnemonic::from_entropy`, which accepts 32 bytes (256 bits lie
/// within its 128 to 256 bits, a multiple of 32), and on the phrase's text:
/// 24 words joined by spaces, which `Mnemonic::parse` reads back.
#[verifier::external_body]
pub(crate) fn phrase_from_entropy(entropy: &[u8; 32]) -> (r: Option<String>)
    ensures
        r is Some,
        r matches Some(p) ==> p@ == bip39_phrase(entropy@),
        r matches Some(p) ==> p@.len() > 0,
        r matches Some(p) ==> forall|pass: Seq<char>| #[trigger] bip39_seed(p@, pass) is Some,
{
    match Mnemonic::from_entropy(entropy) {
        Ok(m) => Some(m.to_string()),
        Err(_) => None,
    }
}

/// Relies on `Mnemonic::parse` and `Mnemonic::to_seed`.
#[verifier::external_body]
pub(crate) fn seed_from_phrase(phrase: &str, passphrase: &str) -> (r: Option<[u8; 64]>)
    ensures
        r matches Some(s) ==> bip39_seed(phrase@, passphrase@) == Some(s@),
        r is None ==> bip39_seed(phrase@, passphrase@) is None,
{
    match Mnemonic::parse(phrase) {
        Ok(m) => Some(m.to_seed(passphrase)),
        Err(_) => None,
    }
}

/// A fresh 24-word phrase from random entropy.
pub fn generate_mnemonic() -> (r: String)
    ensures
        exists|e: Seq<u8>| e.len() == ENTROPY_LEN && r@ == #[trigger] bip39_phrase(e),
        r@.len() > 0,
        forall|pass: Seq<char>| #[trigger] bip39_seed(r@, pass) is Some,
{
    let entropy = random_entropy();
    match phrase_from_entropy(&entropy) {
        Some(p) => p,
        None => String::new(),
    }
}

} // verus!
