//! Wallets: registering one (hashing its password and sealing its seed under
//! the key that the hash yields), and unlocking a stored one.
use crate::account::{new_id, stored_seed, AccountError, AccountModel, Network};
use crate::cipher::{decrypt, encrypt_with_nonce, random_nonce, sealed_message, AESError, NONCE_LEN, PLAINTEXT_MAX, TAG_LEN};
use crate::deriver::{account_address, derive_address};
use crate::hex_text::{from_hex, hex_bytes, hex_text, lemma_hex_round_trip, to_hex};
use crate::mnemonic::{bip39_phrase, bip39_seed, generate_mnemonic, seed_from_phrase, ENTROPY_LEN, SEED_LEN};
use crate::password::{
    argon2_record, argon2_verifies, hash_with_salt, password_len_valid, random_salt, record_key,
    record_key_bytes, salt_text_valid, verify, argon2id_tag, AuthError, AuthResult,
};
use crate::path_builder::{path_text, DerivationPath};
use vstd::prelude::*;
use vstd::slice::slice_to_vec;

verus! {

#[derive(Debug)]
pub enum WalletError {
    InvalidMnemonic,
    Hashing,
    Auth(AuthError),
    InvalidSeedEncoding,
    Cipher(AESError),
}

/// A wallet as the store keeps it: the password's PHC text and the seed sealed
/// under the key that the text yields, as hexadecimal.
#[derive(Debug, Clone)]
pub struct WalletModel {
    pub id: String,
    pub name: String,
    pub password: String,
    pub seed: String,
}

/// The password hash and encrypted-seed text that registering writes for a
/// password and a seed, given the salt and the nonce that were drawn.
pub open spec fn registered_fields(password: Seq<char>, seed: Seq<u8>, salt: Seq<char>, nonce: Seq<u8>) -> Option<(Seq<char>, Seq<char>)> {
    match argon2_record(password, salt) {
        Some(rec) => match record_key(rec) {
            Some(k) => Some((rec, hex_text(sealed_message(k, nonce, seed)))),
            None => None,
        },
        None => None,
    }
}

/// What registering writes for a password and a phrase, given the salt and the
/// nonce that were drawn.
pub open spec fn registration(password: Seq<char>, phrase: Seq<char>, salt: Seq<char>, nonce: Seq<u8>) -> Option<(Seq<char>, Seq<char>)> {
    match bip39_seed(phrase, password) {
        Some(seed) => registered_fields(password, seed, salt, nonce),
        None => None,
    }
}

impl WalletModel {
    /// Checks the password against the stored hash; on success returns the key
    /// that unseals the stored seed.
    pub fn authenticate(&self, password: &str) -> (r: AuthResult)
        ensures
            r matches Ok(k) ==> record_key(self.password@) == Some(k@) && argon2_verifies(password@, self.password@),
            r matches Err(e) ==> (e is Parser <==> record_key(self.password@) is None),
            r matches Err(e) ==> (e is Failed <==> record_key(self.password@) is Some && !argon2_verifies(password@, self.password@)),
            forall|s: Seq<char>| #[trigger] argon2_record(password@, s) == Some(self.password@) ==> (r is Ok),
    {
        verify(password, self.password.as_str())
    }
}

impl WalletModel {
    /// The stored fields under a fresh id.
    pub fn from_input(value: StoreWalletInput) -> (r: WalletModel)
        ensures
            r.id@.len() == 36,
            r.name == value.name,
            r.password == value.encrypted_pass,
            r.seed == value.encrypted_seed,
    {
        WalletModel {
            id: new_id(),
            name: value.name,
            password: value.encrypted_pass,
            seed: value.encrypted_seed,
        }
    }
}

impl From<StoreWalletInput> for WalletModel {
    fn from(value: StoreWalletInput) -> WalletModel {
        WalletModel::from_input(value)
    }
}

impl vstd::std_specs::convert::FromSpecImpl<StoreWalletInput> for WalletModel {
    open spec fn obeys_from_spec() -> bool {
        false
    }

    open spec fn from_spec(v: StoreWalletInput) -> WalletModel {
        arbitrary()
    }
}

/// A wallet ready to be stored.
#[derive(Debug, Default)]
pub struct StoreWalletInput {
    pub name: String,
    pub encrypted_pass: String,
    pub encrypted_seed: String,
}

impl StoreWalletInput {
    /// A registration for `name` and `password` with a fresh phrase.
    pub fn new(name: &str, password: &str) -> (r: WalletInputBuilder)
        ensures
            r.name@ == name@,
            r.password@ == password@,
            exists|e: Seq<u8>| e.len() == ENTROPY_LEN && r.mnemonic@ == #[trigger] bip39_phrase(e),
            r.mnemonic@.len() > 0,
            forall|pass: Seq<char>| #[trigger] bip39_seed(r.mnemonic@, pass) is Some,
    {
        WalletInputBuilder {
            name: name.to_string(),
            password: password.to_string(),
            mnemonic: generate_mnemonic(),
        }
    }
}

/// The name, password and mnemonic phrase of a wallet being registered. The
/// password also serves as the phrase's passphrase.
#[derive(Debug)]
pub struct WalletInputBuilder {
    pub name: String,
    pub password: String,
    pub mnemonic: String,
}

impl WalletInputBuilder {
    /// An empty name and password with a fresh phrase.
    pub fn new() -> (r: Self)
        ensures
            r.name@ == Seq::<char>::empty(),
            r.password@ == Seq::<char>::empty(),
            exists|e: Seq<u8>| e.len() == ENTROPY_LEN && r.mnemonic@ == #[trigger] bip39_phrase(e),
            r.mnemonic@.len() > 0,
            forall|pass: Seq<char>| #[trigger] bip39_seed(r.mnemonic@, pass) is Some,
    {
        WalletInputBuilder { mnemonic: generate_mnemonic(), name: String::new(), password: String::new() }
    }

    pub fn from_phrase(phrase: &str) -> (r: Self)
        ensures
            r.name@ == Seq::<char>::empty(),
            r.password@ == Seq::<char>::empty(),
            r.mnemonic@ == phrase@,
    {
        WalletInputBuilder { mnemonic: phrase.to_string(), name: String::new(), password: String::new() }
    }

    pub fn name(&mut self, name: &str)
        ensures
            final(self).name@ == name@,
            final(self).password == old(self).password,
            final(self).mnemonic == old(self).mnemonic,
    {
        self.name = name.to_string();
    }

    pub fn password(&mut self, password: &str)
        ensures
            final(self).password@ == password@,
            final(self).name == old(self).name,
            final(self).mnemonic == old(self).mnemonic,
    {
        self.password = password.to_string();
    }

    pub fn regenerate_mnemonic(&mut self)
        ensures
            exists|e: Seq<u8>| e.len() == ENTROPY_LEN && final(self).mnemonic@ == #[trigger] bip39_phrase(e),
            final(self).mnemonic@.len() > 0,
            forall|pass: Seq<char>| #[trigger] bip39_seed(final(self).mnemonic@, pass) is Some,
            final(self).name == old(self).name,
            final(self).password == old(self).password,
    {
        self.mnemonic = generate_mnemonic();
    }

    pub fn mnemonic_as_string(&self) -> (r: String)
        ensures
            r@ == self.mnemonic@,
    {
        self.mnemonic.clone()
    }

    /// Hashes the password under `salt`, derives the seed from the phrase (the
    /// password as passphrase) and seals it with `nonce` under the key that the
    /// hash yields.
    pub fn build_with(&self, salt: &str, nonce: &[u8; 12]) -> (r: Result<StoreWalletInput, WalletError>)
        ensures
            r matches Ok(w) ==> w.name@ == self.name@,
            r matches Ok(w) ==> registration(self.password@, self.mnemonic@, salt@, nonce@) == Some(
                (w.encrypted_pass@, w.encrypted_seed@),
            ),
            r matches Ok(w) ==> w.encrypted_seed@.len() == 2 * (NONCE_LEN + SEED_LEN + TAG_LEN),
            r is Ok ==> (bip39_seed(self.mnemonic@, self.password@) matches Some(s) && s.len() == SEED_LEN),
            r matches Ok(w) ==> w.encrypted_pass@.len() > 10 && w.encrypted_pass@.subrange(0, 10) == argon2id_tag(),
            r is Ok <==> registration(self.password@, self.mnemonic@, salt@, nonce@) is Some,
            r matches Err(e) ==> (e is InvalidMnemonic <==> bip39_seed(self.mnemonic@, self.password@) is None),
            r matches Err(e) ==> (e is InvalidMnemonic || e is Hashing),
            bip39_seed(self.mnemonic@, self.password@) is Some && salt_text_valid(salt@)
                && password_len_valid(self.password@) ==> r is Ok,
    {
        let seed = match seed_from_phrase(self.mnemonic.as_str(), self.password.as_str()) {
            Some(s) => s,
            None => return Err(WalletError::InvalidMnemonic),
        };
        let record = match hash_with_salt(self.password.as_str(), salt) {
            Some(h) => h,
            None => return Err(WalletError::Hashing),
        };
        // A text that the hasher wrote always yields a key, and a 64-byte seed
        // always seals: the two error arms below are never taken.
        let key = match record_key_bytes(record.as_str()) {
            Some(k) => k,
            None => return Err(WalletError::Hashing),
        };
        let seed_bytes = slice_to_vec(&seed);
        let sealed = match encrypt_with_nonce(&key, nonce, seed_bytes.as_slice()) {
            Ok(c) => c,
            Err(e) => return Err(WalletError::Cipher(e)),
        };
        let encrypted_seed = to_hex(sealed.as_slice());
        assert(seed_bytes@ == seed@);
        Ok(StoreWalletInput { encrypted_pass: record, encrypted_seed, name: self.name.clone() })
    }

    /// Registers with a fresh random salt and nonce; fails only where the
    /// phrase does not parse or the password is too long for Argon2.
    pub fn build(&self) -> (r: Result<StoreWalletInput, WalletError>)
        ensures
            r matches Ok(w) ==> w.name@ == self.name@,
            r matches Ok(w) ==> exists|salt: Seq<char>, nonce: Seq<u8>|
                salt_text_valid(salt) && nonce.len() == NONCE_LEN && #[trigger] registration(
                    self.password@,
                    self.mnemonic@,
                    salt,
                    nonce,
                ) == Some((w.encrypted_pass@, w.encrypted_seed@)),
            r matches Ok(w) ==> w.encrypted_seed@.len() == 2 * (NONCE_LEN + SEED_LEN + TAG_LEN),
            r is Ok ==> (bip39_seed(self.mnemonic@, self.password@) matches Some(s) && s.len() == SEED_LEN),
            r matches Ok(w) ==> w.encrypted_pass@.len() > 10 && w.encrypted_pass@.subrange(0, 10) == argon2id_tag(),
            r matches Err(e) ==> (e is InvalidMnemonic <==> bip39_seed(self.mnemonic@, self.password@) is None),
            r matches Err(e) ==> (e is InvalidMnemonic || e is Hashing),
            bip39_seed(self.mnemonic@, self.password@) is Some && password_len_valid(self.password@) ==> r is Ok,
    {
        let salt = random_salt();
        let nonce = random_nonce();
        self.build_with(salt.as_str(), &nonce)
    }
}

/// An account derived from an unlocked wallet.
#[derive(Debug, Clone)]
pub struct Account {
    pub wallet_id: String,
    pub path: String,
    pub address: String,
    pub index: u32,
}

/// A wallet; unlocked while it holds its seed.
#[derive(Debug)]
pub struct Wallet {
    pub name: String,
    pub seed: Option<Vec<u8>>,
    pub id: Option<String>,
    pub accounts: Vec<AccountModel>,
    pub passphrase: Option<String>,
}

impl Wallet {
    pub open spec fn seed_view(&self) -> Option<Seq<u8>> {
        match self.seed {
            Some(s) => Some(s@),
            None => None,
        }
    }

    /// Unlocks a stored wallet: checks the password against the stored hash and
    /// opens the stored seed under the key that the hash yields.
    pub fn unlock(record: &WalletModel, password: &str) -> (r: Result<Wallet, WalletError>)
        ensures
            r matches Ok(w) ==> (record_key(record.password@) matches Some(k) && argon2_verifies(password@, record.password@)
                && stored_seed(k, record.seed@) is Some && w.seed_view() == stored_seed(k, record.seed@)),
            r matches Ok(w) ==> w.id == Some(record.id) && w.name == record.name && w.accounts@.len() == 0
                && w.passphrase is None,
            record_key(record.password@) matches Some(k) && argon2_verifies(password@, record.password@)
                && stored_seed(k, record.seed@) is Some ==> r is Ok,
            r matches Err(e) ==> (e is Auth <==> (record_key(record.password@) is None || !argon2_verifies(password@, record.password@))),
            r matches Err(e) ==> (e matches WalletError::Auth(a) ==> (a is Parser <==> record_key(record.password@) is None)),
            r matches Err(e) ==> (e is InvalidSeedEncoding <==> (record_key(record.password@) is Some
                && argon2_verifies(password@, record.password@) && hex_bytes(record.seed@) is None)),
            r matches Err(e) ==> (e is Cipher <==> (record_key(record.password@) matches Some(k)
                && argon2_verifies(password@, record.password@) && hex_bytes(record.seed@) is Some
                && stored_seed(k, record.seed@) is None)),
            r matches Err(e) ==> (e is Auth || e is InvalidSeedEncoding || e is Cipher),
            forall|salt: Seq<char>, nonce: Seq<u8>, seed: Seq<u8>|
                nonce.len() == NONCE_LEN && seed.len() <= PLAINTEXT_MAX
                    && #[trigger] registered_fields(password@, seed, salt, nonce) == Some((record.password@, record.seed@))
                    ==> (r matches Ok(w) && w.seed_view() == Some(seed)),
    {
        let key = match verify(password, record.password.as_str()) {
            Ok(k) => k,
            Err(e) => return Err(WalletError::Auth(e)),
        };
        let bytes = match from_hex(record.seed.as_str()) {
            Some(b) => b,
            None => {
                assert forall|salt: Seq<char>, nonce: Seq<u8>, seed: Seq<u8>|
                    nonce.len() == NONCE_LEN && #[trigger] registered_fields(password@, seed, salt, nonce)
                        == Some((record.password@, record.seed@)) implies false by {
                    lemma_hex_round_trip(sealed_message(key@, nonce, seed));
                }
                return Err(WalletError::InvalidSeedEncoding);
            },
        };
        assert forall|salt: Seq<char>, nonce: Seq<u8>, seed: Seq<u8>|
            nonce.len() == NONCE_LEN && #[trigger] registered_fields(password@, seed, salt, nonce)
                == Some((record.password@, record.seed@)) implies bytes@ == sealed_message(key@, nonce, seed) by {
            lemma_hex_round_trip(sealed_message(key@, nonce, seed));
        }
        let seed = match decrypt(&key, bytes.as_slice()) {
            Ok(s) => s,
            Err(e) => return Err(WalletError::Cipher(e)),
        };
        Ok(Wallet {
            name: record.name.clone(),
            seed: Some(seed),
            id: Some(record.id.clone()),
            accounts: Vec::new(),
            passphrase: None,
        })
    }

    /// Derives the account at the end of `path` from the unlocked seed.
    pub fn create_account(&self, path: &DerivationPath, network: Network) -> (r: Result<Account, AccountError>)
        ensures
            (self.id is None || self.seed is None) ==> (r matches Err(e) && e is Building),
            r matches Ok(a) ==> (self.id matches Some(id) && a.wallet_id@ == id@),
            r matches Ok(a) ==> (self.seed_view() matches Some(s) && account_address(s, path@, network) == Some(a.address@)),
            r matches Ok(a) ==> a.path@ == path_text(path@) && path@.len() > 0 && a.index == path@.last().index,
            self.id is Some ==> (self.seed_view() matches Some(s) && account_address(s, path@, network) is Some ==> r is Ok),
    {
        let id = match &self.id {
            Some(i) => i,
            None => return Err(AccountError::Building("wallet has not been stored".to_string())),
        };
        let seed = match &self.seed {
            Some(s) => s,
            None => return Err(AccountError::Building("wallet is locked".to_string())),
        };
        let address = derive_address(seed.as_slice(), path, network)?;
        let n = path.children.len();
        let index = path.children[n - 1].index;
        Ok(Account { wallet_id: id.clone(), path: path.to_string(), address, index })
    }
}

/// Builds an unlocked wallet from a mnemonic phrase and a passphrase.
pub struct WalletBuilder {
    pub name: String,
    pub mnemonic: String,
    pub passphrase: String,
}

impl WalletBuilder {
    /// A builder named `Default` with an empty passphrase.
    pub fn new(mnemonic: &str) -> (r: WalletBuilder)
        ensures
            r.name@ == "Default"@,
            r.mnemonic@ == mnemonic@,
            r.passphrase@ == Seq::<char>::empty(),
    {
        WalletBuilder { name: "Default".to_string(), mnemonic: mnemonic.to_string(), passphrase: String::new() }
    }

    /// A locked handle on a stored wallet, known by name.
    pub fn from_existing(name: &str) -> (r: Wallet)
        ensures
            r.id is None,
            r.name@ == name@,
            r.seed is None,
            r.accounts@.len() == 0,
    {
        Wallet { id: None, name: name.to_string(), accounts: Vec::new(), passphrase: None, seed: None }
    }

    /// A locked handle on a stored wallet, known by id.
    pub fn from_existing_id(id: &str) -> (r: Wallet)
        ensures
            r.id matches Some(i) && i@ == id@,
            r.name@ == Seq::<char>::empty(),
            r.seed is None,
            r.accounts@.len() == 0,
    {
        Wallet { id: Some(id.to_string()), name: String::new(), accounts: Vec::new(), passphrase: None, seed: None }
    }

    pub fn passphrase(&mut self, pass: &str)
        ensures
            final(self).passphrase@ == pass@,
            final(self).name == old(self).name,
            final(self).mnemonic == old(self).mnemonic,
    {
        self.passphrase = pass.to_string();
    }

    pub fn mnemonic(&mut self, mnemonic: String)
        ensures
            final(self).mnemonic == mnemonic,
            final(self).name == old(self).name,
            final(self).passphrase == old(self).passphrase,
    {
        self.mnemonic = mnemonic;
    }

    pub fn name(&mut self, name: &str)
        ensures
            final(self).name@ == name@,
            final(self).mnemonic == old(self).mnemonic,
            final(self).passphrase == old(self).passphrase,
    {
        self.name = name.to_string();
    }

    /// Derives the seed from the phrase and passphrase; fails where the phrase
    /// does not parse.
    pub fn build(self) -> (r: Result<Wallet, WalletError>)
        ensures
            r matches Ok(w) ==> bip39_seed(self.mnemonic@, self.passphrase@) == w.seed_view(),
            r matches Ok(w) ==> w.seed is Some && w.id is None && w.name == self.name,
            r matches Ok(w) ==> w.passphrase == Some(self.passphrase) && w.accounts@.len() == 0,
            r matches Ok(w) ==> (w.seed_view() matches Some(s) && s.len() == SEED_LEN),
            r is Err <==> bip39_seed(self.mnemonic@, self.passphrase@) is None,
            r matches Err(e) ==> e is InvalidMnemonic,
    {
        let seed = match seed_from_phrase(self.mnemonic.as_str(), self.passphrase.as_str()) {
            Some(s) => s,
            None => return Err(WalletError::InvalidMnemonic),
        };
        Ok(Wallet {
            id: None,
            name: self.name,
            seed: Some(slice_to_vec(&seed)),
            passphrase: Some(self.passphrase),
            accounts: Vec::new(),
        })
    }
}

} // verus!
