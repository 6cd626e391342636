//! Accounts: the chain and network they belong to, what is stored of them, and
//! the builder that derives one from a wallet's encrypted seed.
use crate::cipher::{decrypt, encrypt, opened_message, sealed_message, AESKey, NONCE_LEN, PLAINTEXT_MAX};
use crate::deriver::{account_address, derive_address, seed_len_valid, steps_valid};
use crate::hex_text::{from_hex, hex_bytes, hex_text, to_hex};
use crate::path_builder::{
    default_steps, path_address_kind, path_text, DerivationPath, PathAddressKind, PathBuilder,
};
use crate::text::str_equal;
use crate::vault::{VaultError, VaultResult};
use crate::wallet::WalletModel;
use vstd::prelude::*;
use vstd::utf8::encode_utf8;

verus! {

pub const BITCOIN: &'static str = "Bitcoin";

pub const TESTNET: &'static str = "Testnet";

pub const MAINNET: &'static str = "Mainnet";

/// The error that reading an unknown chain or network name gives.
pub const PARSE_ERROR: &'static str = "Error parsing";

#[derive(Debug)]
pub enum AccountError {
    Building(String),
    Path(String),
    Derivation(String),
    UnsupportedAddressKind,
}

#[derive(Debug, Clone, Copy, PartialEq, Eq, Structural)]
pub enum Blockchain {
    Bitcoin,
}

impl Blockchain {
    /// The name under which the chain is stored.
    pub open spec fn name(self) -> Seq<char> {
        match self {
            Blockchain::Bitcoin => BITCOIN@,
        }
    }

    pub fn from_string(text: &str) -> (r: Result<Blockchain, &'static str>)
        ensures
            text@ == BITCOIN@ <==> r == Ok::<Blockchain, &'static str>(Blockchain::Bitcoin),
            text@ != BITCOIN@ <==> r is Err,
            r matches Err(m) ==> m@ == PARSE_ERROR@,
    {
        if str_equal(text, BITCOIN) {
            Ok(Blockchain::Bitcoin)
        } else {
            Err(PARSE_ERROR)
        }
    }

    pub fn to_string(&self) -> (r: String)
        ensures
            r@ == self.name(),
    {
        match self {
            Blockchain::Bitcoin => BITCOIN.to_string(),
        }
    }

    /// The chain's main network, on which its accounts are derived.
    pub open spec fn main_network(self) -> Network {
        match self {
            Blockchain::Bitcoin => Network::Mainnet,
        }
    }

    pub fn to_network(&self) -> (r: Network)
        ensures
            r == self.main_network(),
    {
        match self {
            Blockchain::Bitcoin => Network::Mainnet,
        }
    }
}

impl Default for Blockchain {
    fn default() -> (r: Blockchain)
        ensures
            r == Blockchain::Bitcoin,
    {
        Blockchain::Bitcoin
    }
}

#[derive(Debug, Clone, Copy, PartialEq, Eq, Structural)]
pub enum Network {
    Mainnet,
    Testnet,
}

impl Network {
    /// The name under which the network is stored.
    pub open spec fn name(self) -> Seq<char> {
        match self {
            Network::Mainnet => MAINNET@,
            Network::Testnet => TESTNET@,
        }
    }

    pub fn from_string(text: &str) -> (r: Result<Network, &'static str>)
        ensures
            text@ == MAINNET@ <==> r == Ok::<Network, &'static str>(Network::Mainnet),
            text@ == TESTNET@ <==> r == Ok::<Network, &'static str>(Network::Testnet),
            (text@ != MAINNET@ && text@ != TESTNET@) <==> r is Err,
            r matches Err(m) ==> m@ == PARSE_ERROR@,
    {
        proof {
            reveal_strlit("Mainnet");
            reveal_strlit("Testnet");
            assert(MAINNET@ != TESTNET@) by {
                assert(MAINNET@[0] != TESTNET@[0]);
            }
        }
        if str_equal(text, MAINNET) {
            Ok(Network::Mainnet)
        } else if str_equal(text, TESTNET) {
            Ok(Network::Testnet)
        } else {
            Err(PARSE_ERROR)
        }
    }

    pub fn to_string(&self) -> (r: String)
        ensures
            r@ == self.name(),
    {
        match self {
            Network::Mainnet => MAINNET.to_string(),
            Network::Testnet => TESTNET.to_string(),
        }
    }
}

impl Default for Network {
    fn default() -> (r: Network)
        ensures
            r == Network::Mainnet,
    {
        Network::Mainnet
    }
}

/// Relies on `Uuid::new_v4` and its hyphenated text, 36 characters long.
#[verifier::external_body]
pub(crate) fn new_id() -> (r: String)
    ensures
        r@.len() == 36,
{
    uuid::Uuid::new_v4().to_string()
}

/// An account as the store keeps it.
#[derive(Debug, Clone, Default)]
pub struct AccountModel {
    pub id: String,
    pub wallet_id: String,
    pub address: String,
    pub path: String,
    pub network: String,
    pub blockchain: String,
    pub created_at: Option<String>,
}

impl AccountModel {
    /// Reads an account from the columns of a stored row; the chain and network
    /// names must be known ones.
    pub fn from_columns(
        id: String,
        path: String,
        address: String,
        blockchain: String,
        network: String,
        wallet_id: String,
        created_at: String,
    ) -> (r: VaultResult<AccountModel>)
        ensures
            r is Ok <==> (blockchain@ == BITCOIN@ && (network@ == MAINNET@ || network@ == TESTNET@)),
            r matches Err(e) ==> e is Parser,
            r matches Ok(m) ==> m.id == id && m.path == path && m.address == address && m.wallet_id
                == wallet_id && m.created_at == Some(created_at) && m.blockchain@ == blockchain@
                && m.network@ == network@,
    {
        let chain = match Blockchain::from_string(blockchain.as_str()) {
            Ok(c) => c,
            Err(e) => return Err(VaultError::Parser(e.to_string())),
        };
        let net = match Network::from_string(network.as_str()) {
            Ok(n) => n,
            Err(e) => return Err(VaultError::Parser(e.to_string())),
        };
        Ok(AccountModel {
            id,
            address,
            blockchain: chain.to_string(),
            network: net.to_string(),
            wallet_id,
            path,
            created_at: Some(created_at),
        })
    }
}

impl AccountModel {
    /// The stored fields under a fresh id, with chain and network by name.
    pub fn from_input(value: StoreAccountInput) -> (r: AccountModel)
        ensures
            r.id@.len() == 36,
            r.wallet_id == value.wallet_id,
            r.address == value.address,
            r.path == value.encrypted_path,
            r.created_at is None,
            r.blockchain@ == value.blockchain.name(),
            r.network@ == value.network.name(),
    {
        AccountModel {
            id: new_id(),
            wallet_id: value.wallet_id,
            address: value.address,
            path: value.encrypted_path,
            created_at: None,
            blockchain: value.blockchain.to_string(),
            network: value.network.to_string(),
        }
    }
}

impl From<StoreAccountInput> for AccountModel {
    fn from(value: StoreAccountInput) -> AccountModel {
        AccountModel::from_input(value)
    }
}

impl vstd::std_specs::convert::FromSpecImpl<StoreAccountInput> for AccountModel {
    open spec fn obeys_from_spec() -> bool {
        false
    }

    open spec fn from_spec(v: StoreAccountInput) -> AccountModel {
        arbitrary()
    }
}

/// An account ready to be stored: its address, and its path sealed under the
/// wallet's key.
#[derive(Debug, Clone)]
pub struct StoreAccountInput {
    pub wallet_id: String,
    pub address: String,
    pub encrypted_path: String,
    pub blockchain: Blockchain,
    pub network: Network,
}

pub type AccountInputBuilderResult = Result<StoreAccountInput, AccountError>;

/// The seed that an encrypted-seed text opens to under a key.
pub open spec fn stored_seed(key: Seq<u8>, text: Seq<char>) -> Option<Seq<u8>> {
    match hex_bytes(text) {
        Some(b) => opened_message(key, b),
        None => None,
    }
}

/// Derives an account from a wallet's encrypted seed.
#[derive(Debug)]
pub struct AccountInputBuilder {
    pub path: DerivationPath,
    pub blockchain: Blockchain,
    pub network: Network,
    pub encrypted_seed: String,
    pub wallet_id: String,
}

impl From<WalletModel> for AccountInputBuilder {
    fn from(value: WalletModel) -> AccountInputBuilder {
        AccountInputBuilder::from_wallet(value)
    }
}

impl vstd::std_specs::convert::FromSpecImpl<WalletModel> for AccountInputBuilder {
    open spec fn obeys_from_spec() -> bool {
        false
    }

    open spec fn from_spec(v: WalletModel) -> AccountInputBuilder {
        arbitrary()
    }
}

impl AccountInputBuilder {
    /// A builder on the default path for a stored wallet.
    pub fn from_wallet(value: WalletModel) -> (r: AccountInputBuilder)
        ensures
            r.path@ == default_steps(),
            r.wallet_id == value.id,
            r.encrypted_seed == value.seed,
            r.blockchain == Blockchain::Bitcoin,
            r.network == Network::Mainnet,
    {
        let builder = PathBuilder::new();
        let path = match builder.build() {
            Ok(p) => p,
            Err(_) => DerivationPath { children: Vec::new() },
        };
        AccountInputBuilder {
            path,
            wallet_id: value.id,
            encrypted_seed: value.seed,
            blockchain: Blockchain::Bitcoin,
            network: Network::Mainnet,
        }
    }

    /// A builder on the given path, with no wallet yet.
    pub fn from_path(path: DerivationPath) -> (r: AccountInputBuilder)
        ensures
            r.path == path,
            r.wallet_id@ == Seq::<char>::empty(),
            r.encrypted_seed@ == Seq::<char>::empty(),
            r.blockchain == Blockchain::Bitcoin,
            r.network == Network::Mainnet,
    {
        AccountInputBuilder {
            path,
            wallet_id: String::new(),
            encrypted_seed: String::new(),
            blockchain: Blockchain::Bitcoin,
            network: Network::Mainnet,
        }
    }

    pub fn path(&mut self, path: DerivationPath)
        ensures
            final(self).path == path,
            final(self).blockchain == old(self).blockchain,
            final(self).network == old(self).network,
            final(self).encrypted_seed == old(self).encrypted_seed,
            final(self).wallet_id == old(self).wallet_id,
    {
        self.path = path;
    }

    pub fn wallet_id(&mut self, id: &str)
        ensures
            final(self).wallet_id@ == id@,
            final(self).path == old(self).path,
            final(self).blockchain == old(self).blockchain,
            final(self).network == old(self).network,
            final(self).encrypted_seed == old(self).encrypted_seed,
    {
        self.wallet_id = id.to_string();
    }

    pub fn blockchain(&mut self, blockchain: Blockchain)
        ensures
            final(self).blockchain == blockchain,
            final(self).path == old(self).path,
            final(self).network == old(self).network,
            final(self).encrypted_seed == old(self).encrypted_seed,
            final(self).wallet_id == old(self).wallet_id,
    {
        self.blockchain = blockchain;
    }

    pub fn network(&mut self, network: Network)
        ensures
            final(self).network == network,
            final(self).path == old(self).path,
            final(self).blockchain == old(self).blockchain,
            final(self).encrypted_seed == old(self).encrypted_seed,
            final(self).wallet_id == old(self).wallet_id,
    {
        self.network = network;
    }

    pub fn encrypted_seed(&mut self, encrypted_seed: &str)
        ensures
            final(self).encrypted_seed@ == encrypted_seed@,
            final(self).path == old(self).path,
            final(self).blockchain == old(self).blockchain,
            final(self).network == old(self).network,
            final(self).wallet_id == old(self).wallet_id,
    {
        self.encrypted_seed = encrypted_seed.to_string();
    }

    /// Opens the seed under `key`, derives the address at the end of the path
    /// on the chain's main network, and seals the path's text under the same key.
    pub fn build(&self, key: AESKey) -> (r: AccountInputBuilderResult)
        ensures
            r matches Ok(s) ==> stored_seed(key@, self.encrypted_seed@) matches Some(seed)
                && account_address(seed, self.path@, self.blockchain.main_network()) == Some(s.address@),
            r matches Ok(s) ==> exists|n: Seq<u8>|
                n.len() == NONCE_LEN && s.encrypted_path@ == hex_text(
                    #[trigger] sealed_message(key@, n, encode_utf8(path_text(self.path@))),
                ),
            r is Ok ==> encode_utf8(path_text(self.path@)).len() <= PLAINTEXT_MAX,
            r matches Ok(s) ==> s.wallet_id == self.wallet_id && s.blockchain == self.blockchain
                && s.network == self.blockchain.main_network(),
            r matches Ok(s) ==> (path_address_kind(self.path@) == Some(PathAddressKind::Legacy)
                ==> s.address@.len() > 0 && s.address@[0] == '1'),
            r matches Ok(s) ==> (path_address_kind(self.path@) == Some(PathAddressKind::SegWit)
                ==> s.address@.len() > 0 && s.address@[0] == '3'),
            r matches Ok(s) ==> (path_address_kind(self.path@) == Some(PathAddressKind::NativeSegWit)
                ==> s.address@.len() == 42 && s.address@.subrange(0, 4) == seq!['b', 'c', '1', 'q']),
            stored_seed(key@, self.encrypted_seed@) is None ==> (r matches Err(e) && e is Building),
            r matches Err(e) ==> (e is UnsupportedAddressKind <==> (stored_seed(key@, self.encrypted_seed@) is Some
                && path_address_kind(self.path@) is None)),
            r matches Err(e) ==> (e is Path <==> (stored_seed(key@, self.encrypted_seed@) matches Some(seed)
                && path_address_kind(self.path@) is Some && (!seed_len_valid(seed) || !steps_valid(self.path@)))),
            r matches Err(e) ==> (e is Derivation ==> (stored_seed(key@, self.encrypted_seed@) matches Some(seed)
                && account_address(seed, self.path@, self.blockchain.main_network()) is None)),
            (stored_seed(key@, self.encrypted_seed@) matches Some(seed) && account_address(
                seed,
                self.path@,
                self.blockchain.main_network(),
            ) is Some && encode_utf8(path_text(self.path@)).len() <= PLAINTEXT_MAX) ==> r is Ok,
    {
        let bytes = match from_hex(self.encrypted_seed.as_str()) {
            Some(b) => b,
            None => return Err(AccountError::Building("encrypted seed is not hexadecimal".to_string())),
        };
        let seed = match decrypt(&key, bytes.as_slice()) {
            Ok(s) => s,
            Err(_) => return Err(AccountError::Building("seed does not open under this key".to_string())),
        };
        let network = self.blockchain.to_network();
        let address = derive_address(seed.as_slice(), &self.path, network)?;
        let text = self.path.to_string();
        let sealed = match encrypt(&key, text.as_str().as_bytes()) {
            Ok(c) => c,
            Err(_) => return Err(AccountError::Building("path does not seal".to_string())),
        };
        let encrypted_path = to_hex(sealed.as_slice());
        Ok(StoreAccountInput {
            address,
            blockchain: self.blockchain,
            encrypted_path,
            network,
            wallet_id: self.wallet_id.clone(),
        })
    }
}

} // verus!
