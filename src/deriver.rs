//! Derivation of an account's address from a master seed along a BIP-32 path.
//!
//! Extended private keys travel between steps in their 78-byte BIP-32
//! serialisation; the secret key is its last 32 bytes.
use crate::account::{AccountError, Network};
use crate::path_builder::{path_address_kind, ChildNumber, DerivationPath, PathAddressKind, HARDENED_BIT};
use bitcoin::bip32::Xpriv;
use bitcoin::secp256k1::{PublicKey, Secp256k1, SecretKey};
use bitcoin::{Address, CompressedPublicKey, NetworkKind};
use vstd::prelude::*;

verus! {

/// Shortest seed, in bytes, that BIP-32 admits.
pub const SEED_MIN_LEN: usize = 16;

/// Longest seed, in bytes, that BIP-32 admits.
pub const SEED_MAX_LEN: usize = 64;

/// Offset of the secret key in a serialised extended private key.
pub const SECRET_OFFSET: usize = 46;

/// The serialised master extended private key that BIP-32 derives from a seed.
pub uninterp spec fn bip32_master_key(seed: Seq<u8>, network: Network) -> Option<Seq<u8>>;

/// The serialised child of a serialised extended private key at a raw child number.
pub uninterp spec fn bip32_child_key(xpriv: Seq<u8>, child: u32) -> Option<Seq<u8>>;

/// The compressed secp256k1 public key of a secret key.
pub uninterp spec fn secp256k1_public_key(secret: Seq<u8>) -> Option<Seq<u8>>;

/// The pay-to-public-key-hash address text of a compressed public key.
pub uninterp spec fn p2pkh_address_text(pubkey: Seq<u8>, network: Network) -> Option<Seq<char>>;

/// The address text of a pay-to-witness-public-key-hash program wrapped in pay-to-script-hash.
pub uninterp spec fn p2shwpkh_address_text(pubkey: Seq<u8>, network: Network) -> Option<Seq<char>>;

/// The bech32 address text of a pay-to-witness-public-key-hash program.
pub uninterp spec fn p2wpkh_address_text(pubkey: Seq<u8>, network: Network) -> Option<Seq<char>>;

/// Relies on `Xpriv::new_master` and `Xpriv::encode`.
#[verifier::external_body]
fn master_key(seed: &[u8], network: Network) -> (r: Option<[u8; 78]>)
    ensures
        r matches Some(x) ==> bip32_master_key(seed@, network) == Some(x@),
        r is None ==> bip32_master_key(seed@, network) is None,
{
    let kind = match network {
        Network::Mainnet => NetworkKind::Main,
        Network::Testnet => NetworkKind::Test,
    };
    match Xpriv::new_master(kind, seed) {
        Ok(x) => Some(x.encode()),
        Err(_) => None,
    }
}

/// Relies on `Xpriv::decode`, `Xpriv::derive_priv` over one child number, and
/// `Xpriv::encode`.
#[verifier::external_body]
fn child_key(xpriv: &[u8; 78], child: u32) -> (r: Option<[u8; 78]>)
    ensures
        r matches Some(x) ==> bip32_child_key(xpriv@, child) == Some(x@),
        r is None ==> bip32_child_key(xpriv@, child) is None,
{
    let parent = match Xpriv::decode(xpriv) {
        Ok(x) => x,
        Err(_) => return None,
    };
    match parent.derive_priv(&Secp256k1::new(), &[bitcoin::bip32::ChildNumber::from(child)]) {
        Ok(x) => Some(x.encode()),
        Err(_) => None,
    }
}

/// Relies on `SecretKey::from_slice`, `PublicKey::from_secret_key` and
/// `PublicKey::serialize` (compressed form).
#[verifier::external_body]
fn public_key(secret: &[u8; 32]) -> (r: Option<[u8; 33]>)
    ensures
        r matches Some(k) ==> secp256k1_public_key(secret@) == Some(k@),
        r is None ==> secp256k1_public_key(secret@) is None,
{
    match SecretKey::from_slice(secret) {
        Ok(sk) => Some(PublicKey::from_secret_key(&Secp256k1::new(), &sk).serialize()),
        Err(_) => None,
    }
}

/// Relies on `Address::p2pkh` and its text form: on the main network the
/// version byte is zero, which base58 writes as a leading `1`.
#[verifier::external_body]
fn p2pkh_address(pubkey: &[u8; 33], network: Network) -> (r: Option<String>)
    ensures
        r matches Some(s) ==> p2pkh_address_text(pubkey@, network) == Some(s@),
        r is None ==> p2pkh_address_text(pubkey@, network) is None,
        r matches Some(s) ==> (network == Network::Mainnet ==> s@.len() > 0 && s@[0] == '1'),
{
    let kind = match network {
        Network::Mainnet => NetworkKind::Main,
        Network::Testnet => NetworkKind::Test,
    };
    match CompressedPublicKey::from_slice(pubkey) {
        Ok(pk) => Some(Address::p2pkh(pk, kind).to_string()),
        Err(_) => None,
    }
}

/// Relies on `Address::p2shwpkh` and its text form: on the main network the
/// script-hash version byte is 5, which base58 writes as a leading `3`.
#[verifier::external_body]
fn p2shwpkh_address(pubkey: &[u8; 33], network: Network) -> (r: Option<String>)
    ensures
        r matches Some(s) ==> p2shwpkh_address_text(pubkey@, network) == Some(s@),
        r is None ==> p2shwpkh_address_text(pubkey@, network) is None,
        r matches Some(s) ==> (network == Network::Mainnet ==> s@.len() > 0 && s@[0] == '3'),
{
    let kind = match network {
        Network::Mainnet => NetworkKind::Main,
        Network::Testnet => NetworkKind::Test,
    };
    match CompressedPublicKey::from_slice(pubkey) {
        Ok(pk) => Some(Address::p2shwpkh(&pk, kind).to_string()),
        Err(_) => None,
    }
}

/// Relies on `Address::p2wpkh` and its text form: on the main network bech32
/// writes the prefix `bc`, the separator `1`, witness version 0 as `q`, the
/// 20-byte program as 32 characters and a 6-character checksum: 42 in all.
#[verifier::external_body]
fn p2wpkh_address(pubkey: &[u8; 33], network: Network) -> (r: Option<String>)
    ensures
        r matches Some(s) ==> p2wpkh_address_text(pubkey@, network) == Some(s@),
        r is None ==> p2wpkh_address_text(pubkey@, network) is None,
        r matches Some(s) ==> (network == Network::Mainnet ==> s@.len() == 42 && s@.subrange(0, 4) == seq!['b', 'c', '1', 'q']),
{
    let hrp = match network {
        Network::Mainnet => bitcoin::Network::Bitcoin,
        Network::Testnet => bitcoin::Network::Testnet,
    };
    match CompressedPublicKey::from_slice(pubkey) {
        Ok(pk) => Some(Address::p2wpkh(&pk, hrp).to_string()),
        Err(_) => None,
    }
}

/// The serialised extended private key at the end of a path.
pub open spec fn derived_xpriv(seed: Seq<u8>, path: Seq<ChildNumber>, network: Network) -> Option<Seq<u8>>
    decreases path.len(),
{
    if path.len() == 0 {
        bip32_master_key(seed, network)
    } else {
        match derived_xpriv(seed, path.drop_last(), network) {
            Some(x) => bip32_child_key(x, path.last().raw()),
            None => None,
        }
    }
}

/// The secret key inside a serialised extended private key.
pub open spec fn xpriv_secret(xpriv: Seq<u8>) -> Seq<u8> {
    xpriv.subrange(SECRET_OFFSET as int, SECRET_OFFSET as int + 32)
}

/// The address text of a public key in the given form.
pub open spec fn address_text(kind: PathAddressKind, pubkey: Seq<u8>, network: Network) -> Option<Seq<char>> {
    match kind {
        PathAddressKind::Legacy => p2pkh_address_text(pubkey, network),
        PathAddressKind::SegWit => p2shwpkh_address_text(pubkey, network),
        PathAddressKind::NativeSegWit => p2wpkh_address_text(pubkey, network),
    }
}

/// The address at the end of a path whose purpose selects the form `kind`.
pub open spec fn derived_address(seed: Seq<u8>, path: Seq<ChildNumber>, network: Network, kind: PathAddressKind) -> Option<Seq<char>> {
    match derived_xpriv(seed, path, network) {
        Some(x) => match secp256k1_public_key(xpriv_secret(x)) {
            Some(pk) => address_text(kind, pk, network),
            None => None,
        },
        None => None,
    }
}

/// The seed length that BIP-32 admits.
pub open spec fn seed_len_valid(seed: Seq<u8>) -> bool {
    SEED_MIN_LEN <= seed.len() <= SEED_MAX_LEN
}

/// Every step of the path lies below the hardened bit.
pub open spec fn steps_valid(path: Seq<ChildNumber>) -> bool {
    forall|i: int| 0 <= i < path.len() ==> (#[trigger] path[i]).wf()
}

/// What deriving the address of `path` from `seed` gives: the address, or
/// `None` where the seed or a step is rejected, or a derivation step fails.
pub open spec fn account_address(seed: Seq<u8>, path: Seq<ChildNumber>, network: Network) -> Option<Seq<char>> {
    match path_address_kind(path) {
        Some(kind) => if seed_len_valid(seed) && steps_valid(path) {
            derived_address(seed, path, network, kind)
        } else {
            None
        },
        None => None,
    }
}

/// Once a prefix of the path fails to derive, every longer prefix fails too.
proof fn lemma_failed_prefix(seed: Seq<u8>, path: Seq<ChildNumber>, network: Network, j: int, m: int)
    requires
        0 <= j <= m <= path.len(),
        derived_xpriv(seed, path.subrange(0, j), network) is None,
    ensures
        derived_xpriv(seed, path.subrange(0, m), network) is None,
    decreases m - j,
{
    if m > j {
        lemma_failed_prefix(seed, path, network, j, m - 1);
        assert(path.subrange(0, m).drop_last() =~= path.subrange(0, m - 1));
    }
}

fn secret_of(xpriv: &[u8; 78]) -> (r: [u8; 32])
    ensures
        r@ == xpriv_secret(xpriv@),
{
    let mut out = [0u8; 32];
    let mut i: usize = 0;
    while i < 32
        invariant
            i <= 32,
            xpriv@.len() == 78,
            forall|k: int| 0 <= k < i ==> out@[k] == xpriv@[SECRET_OFFSET + k],
        decreases 32 - i,
    {
        out[i] = xpriv[SECRET_OFFSET + i];
        i = i + 1;
    }
    assert(out@ =~= xpriv_secret(xpriv@));
    out
}

/// Derives the address at the end of `path` from `seed`, in the form that the
/// path's purpose selects (44' legacy, 49' wrapped SegWit, 84' native SegWit).
pub fn derive_address(seed: &[u8], path: &DerivationPath, network: Network) -> (r: Result<String, AccountError>)
    ensures
        r matches Ok(a) ==> account_address(seed@, path@, network) == Some(a@),
        account_address(seed@, path@, network) is Some ==> r is Ok,
        r matches Err(e) ==> (e is UnsupportedAddressKind <==> path_address_kind(path@) is None),
        r matches Err(e) ==> (e is Path <==> (path_address_kind(path@) is Some && (!seed_len_valid(seed@) || !steps_valid(path@)))),
        r matches Ok(a) ==> (path_address_kind(path@) == Some(PathAddressKind::Legacy)
            && network == Network::Mainnet ==> a@.len() > 0 && a@[0] == '1'),
        r matches Ok(a) ==> (path_address_kind(path@) == Some(PathAddressKind::SegWit)
            && network == Network::Mainnet ==> a@.len() > 0 && a@[0] == '3'),
        r matches Ok(a) ==> (path_address_kind(path@) == Some(PathAddressKind::NativeSegWit)
            && network == Network::Mainnet ==> a@.len() == 42 && a@.subrange(0, 4) == seq!['b', 'c', '1', 'q']),
{
    let kind = path.address_kind()?;
    if seed.len() < SEED_MIN_LEN || seed.len() > SEED_MAX_LEN {
        return Err(AccountError::Path("seed length out of range".to_string()));
    }
    let n = path.children.len();
    let mut i: usize = 0;
    while i < n
        invariant
            n == path@.len(),
            i <= n,
            path_address_kind(path@) == Some(kind),
            forall|k: int| 0 <= k < i ==> (#[trigger] path@[k]).wf(),
        decreases n - i,
    {
        if path.children[i].index >= HARDENED_BIT {
            return Err(AccountError::Path("child index out of range".to_string()));
        }
        i = i + 1;
    }
    let mut key = match master_key(seed, network) {
        Some(k) => k,
        None => {
            proof {
                assert(path@.subrange(0, 0) =~= Seq::<ChildNumber>::empty());
                lemma_failed_prefix(seed@, path@, network, 0, n as int);
                assert(path@.subrange(0, n as int) =~= path@);
            }
            return Err(AccountError::Derivation("no master key for this seed".to_string()));
        }
    };
    assert(path@.subrange(0, 0) =~= Seq::<ChildNumber>::empty());
    let mut j: usize = 0;
    while j < n
        invariant
            n == path@.len(),
            j <= n,
            path_address_kind(path@) == Some(kind),
            seed_len_valid(seed@),
            steps_valid(path@),
            derived_xpriv(seed@, path@.subrange(0, j as int), network) == Some(key@),
        decreases n - j,
    {
        let c = path.children[j];
        assert(path@.subrange(0, j + 1).drop_last() =~= path@.subrange(0, j as int));
        assert(c.wf());
        key = match child_key(&key, c.to_u32()) {
            Some(k) => k,
            None => {
                proof {
                    lemma_failed_prefix(seed@, path@, network, j + 1, n as int);
                    assert(path@.subrange(0, n as int) =~= path@);
                }
                return Err(AccountError::Derivation("child key derivation failed".to_string()));
            }
        };
        j = j + 1;
    }
    assert(path@.subrange(0, n as int) =~= path@);
    let secret = secret_of(&key);
    let pubkey = match public_key(&secret) {
        Some(k) => k,
        None => return Err(AccountError::Derivation("secret key out of range".to_string())),
    };
    let address = match kind {
        PathAddressKind::Legacy => p2pkh_address(&pubkey, network),
        PathAddressKind::SegWit => p2shwpkh_address(&pubkey, network),
        PathAddressKind::NativeSegWit => p2wpkh_address(&pubkey, network),
    };
    match address {
        Some(a) => Ok(a),
        None => Err(AccountError::Derivation("no address for this key".to_string())),
    }
}

} // verus!
