use dev_wallet::account::{AccountError, AccountInputBuilder, AccountModel, Blockchain, Network};
use dev_wallet::cipher::{decrypt, encrypt, AESError};
use dev_wallet::deriver::derive_address;
use dev_wallet::hex_text::{from_hex, to_hex};
use dev_wallet::password::{hash, verify, AuthError};
use dev_wallet::path_builder::{ChildNumber, DerivationPath, PathAddressKind, PathBuilder};
use dev_wallet::vault::VaultError;
use dev_wallet::wallet::{
    StoreWalletInput, Wallet, WalletBuilder, WalletError, WalletInputBuilder, WalletModel,
};

const ABANDON: &str = "abandon abandon abandon abandon abandon abandon abandon abandon abandon abandon abandon about";

fn abandon_seed() -> Vec<u8> {
    WalletBuilder::new(ABANDON).build().unwrap().seed.unwrap()
}

fn hardened(index: u32) -> ChildNumber {
    ChildNumber { index, hardened: true }
}

fn normal(index: u32) -> ChildNumber {
    ChildNumber { index, hardened: false }
}

#[test]
fn can_build_bip32_path() {
    let path = PathBuilder::new();
    let path = path.build().unwrap().to_string();

    assert_eq!(path, "49'/0'/0'/0/0");
}

#[test]
fn can_encrypt_and_decrypt_data() {
    let key = [1u8; 32];

    let text = b"Hello world";

    let encrypted_data = encrypt(&key, text).unwrap();

    let decrypted = decrypt(&key, &encrypted_data).unwrap();

    let decrypted = to_hex(&decrypted);
    let text = to_hex(text);
    assert_eq!(text, decrypted);
}

#[test]
fn can_create_wallet_input_from_name_and_password() {
    let res = StoreWalletInput::new("name", "password");
    assert_eq!(res.name, "name");
    assert_eq!(res.password, "password");
    assert!(res.mnemonic.to_string().len() > 0);

    let wallet_input = res.build().unwrap();

    assert_eq!(wallet_input.name, "name");
    assert_ne!(wallet_input.encrypted_pass, "password");

    let model = WalletModel::from(wallet_input);

    assert!(model.id.len() > 0);

    assert!(model.seed.len() > 0);
}

#[test]
fn can_create_wallet_input_from_mnemonic() {
    let mnemonic = bip39::Mnemonic::from_entropy(&[7u8; 32]).expect("Mnemonic generation fail");

    let res = WalletInputBuilder::from_phrase(&mnemonic.to_string());
    assert!(res.mnemonic.to_string().len() > 0);

    let wallet_input = res.build().unwrap();

    let model = WalletModel::from(wallet_input);

    assert!(model.id.len() > 0);

    assert!(model.seed.len() > 0);
}

#[test]
fn can_create_wallet_input_from_new() {
    let res = WalletInputBuilder::new();
    assert!(res.mnemonic.to_string().len() > 0);

    let wallet_input = res.build().unwrap();

    let model = WalletModel::from(wallet_input);

    assert!(model.id.len() > 0);

    assert!(model.seed.len() > 0);
}

#[test]
fn built_path_follows_settings() {
    let path = PathBuilder::new()
        .address_kind(PathAddressKind::Legacy)
        .network_kind(Network::Testnet)
        .account_index(3)
        .change_index(1)
        .index(7)
        .build()
        .unwrap();
    assert_eq!(path.to_string(), "44'/1'/3'/1/7");
    let native = PathBuilder::new().address_kind(PathAddressKind::NativeSegWit).build().unwrap();
    assert_eq!(native.to_string(), "84'/0'/0'/0/0");
}

#[test]
fn built_path_rejects_hardened_indices() {
    let res = PathBuilder::new().index(0x8000_0000).build();
    assert!(matches!(res, Err(AccountError::Path(_))));
    let res = PathBuilder::new().account_index(u32::MAX).build();
    assert!(matches!(res, Err(AccountError::Path(_))));
    let res = PathBuilder::new().change_index(0x7fff_ffff).build();
    assert_eq!(res.unwrap().to_string(), "49'/0'/0'/2147483647/0");
}

#[test]
fn decrypt_fails_under_another_key() {
    let sealed = encrypt(&[1u8; 32], b"secret seed").unwrap();
    assert_eq!(sealed.len(), 12 + 11 + 16);
    assert_ne!(&sealed[12..23], b"secret seed");
    assert!(matches!(decrypt(&[2u8; 32], &sealed), Err(AESError::Decrypt(_))));
}

#[test]
fn decrypt_rejects_tampered_and_short_input() {
    let key = [9u8; 32];
    let mut sealed = encrypt(&key, b"").unwrap();
    assert_eq!(decrypt(&key, &sealed).unwrap(), Vec::<u8>::new());
    let last = sealed.len() - 1;
    sealed[last] ^= 1;
    assert!(matches!(decrypt(&key, &sealed), Err(AESError::Decrypt(_))));
    assert!(matches!(decrypt(&key, &[0u8; 11]), Err(AESError::Decrypt(_))));
    assert!(matches!(decrypt(&key, &[]), Err(AESError::Decrypt(_))));
}

#[test]
fn encryptions_of_one_message_differ() {
    let key = [3u8; 32];
    let a = encrypt(&key, b"same").unwrap();
    let b = encrypt(&key, b"same").unwrap();
    assert_ne!(a, b);
    assert_eq!(decrypt(&key, &a).unwrap(), b"same".to_vec());
    assert_eq!(decrypt(&key, &b).unwrap(), b"same".to_vec());
}

#[test]
fn hex_text_round_trips() {
    assert_eq!(to_hex(&[0x00, 0x0f, 0xa5, 0xff]), "000fa5ff");
    assert_eq!(from_hex("000fa5ff").unwrap(), vec![0x00, 0x0f, 0xa5, 0xff]);
    assert_eq!(from_hex("ABcd").unwrap(), vec![0xab, 0xcd]);
    assert_eq!(from_hex("").unwrap(), Vec::<u8>::new());
    assert!(from_hex("abc").is_none());
    assert!(from_hex("zz").is_none());
}

#[test]
fn password_hashes_differ_and_both_verify() {
    let first = hash("hunter2").unwrap();
    let second = hash("hunter2").unwrap();
    assert_ne!(first, second);
    assert!(first.starts_with("$argon2id$"));
    let k1 = verify("hunter2", &first).unwrap();
    let k2 = verify("hunter2", &second).unwrap();
    assert_eq!(k1.len(), 32);
    assert_ne!(k1, k2);
}

#[test]
fn wrong_password_or_bad_record_is_rejected() {
    let record = hash("right").unwrap();
    assert!(matches!(verify("wrong", &record), Err(AuthError::Failed)));
    assert!(matches!(verify("right", "not a phc string"), Err(AuthError::Parser(_))));
}

#[test]
fn derivation_matches_published_vectors() {
    let seed = abandon_seed();
    assert_eq!(seed.len(), 64);
    let legacy = DerivationPath { children: vec![hardened(44), hardened(0), hardened(0), normal(0), normal(0)] };
    let wrapped = DerivationPath { children: vec![hardened(49), hardened(0), hardened(0), normal(0), normal(0)] };
    let native = DerivationPath { children: vec![hardened(84), hardened(0), hardened(0), normal(0), normal(0)] };
    assert_eq!(derive_address(&seed, &legacy, Network::Mainnet).unwrap(), "1LqBGSKuX5yYUonjxT5qGfpUsXKYYWeabA");
    assert_eq!(derive_address(&seed, &wrapped, Network::Mainnet).unwrap(), "37VucYSaXLCAsxYyAPfbSi9eh4iEcbShgf");
    assert_eq!(derive_address(&seed, &native, Network::Mainnet).unwrap(), "bc1qcr8te4kr609gcawutmrza0j4xv80jy8z306fyu");
}

#[test]
fn derivation_is_deterministic() {
    let seed = abandon_seed();
    let path = PathBuilder::new().account_index(2).index(5).build().unwrap();
    let a = derive_address(&seed, &path, Network::Mainnet).unwrap();
    let b = derive_address(&seed, &path, Network::Mainnet).unwrap();
    assert_eq!(a, b);
    assert_eq!(path.to_string(), path.to_string());
}

#[test]
fn address_form_follows_purpose() {
    let seed = abandon_seed();
    let legacy = PathBuilder::new().address_kind(PathAddressKind::Legacy).index(3).build().unwrap();
    assert!(derive_address(&seed, &legacy, Network::Mainnet).unwrap().starts_with('1'));
    let native = PathBuilder::new().address_kind(PathAddressKind::NativeSegWit).build().unwrap();
    assert!(derive_address(&seed, &native, Network::Mainnet).unwrap().starts_with("bc1q"));
    let testnet = PathBuilder::new().address_kind(PathAddressKind::NativeSegWit).network_kind(Network::Testnet).build().unwrap();
    assert!(derive_address(&seed, &testnet, Network::Testnet).unwrap().starts_with("tb1q"));
    let unknown = DerivationPath { children: vec![hardened(86), hardened(0), hardened(0), normal(0), normal(0)] };
    assert!(matches!(derive_address(&seed, &unknown, Network::Mainnet), Err(AccountError::UnsupportedAddressKind)));
    let unhardened = DerivationPath { children: vec![normal(44), hardened(0)] };
    assert!(matches!(derive_address(&seed, &unhardened, Network::Mainnet), Err(AccountError::UnsupportedAddressKind)));
    let empty = DerivationPath { children: vec![] };
    assert!(matches!(derive_address(&seed, &empty, Network::Mainnet), Err(AccountError::UnsupportedAddressKind)));
}

#[test]
fn derivation_rejects_bad_seed_and_steps() {
    let path = PathBuilder::new().build().unwrap();
    assert!(matches!(derive_address(&[1u8; 15], &path, Network::Mainnet), Err(AccountError::Path(_))));
    assert!(matches!(derive_address(&[1u8; 65], &path, Network::Mainnet), Err(AccountError::Path(_))));
    assert!(derive_address(&[1u8; 16], &path, Network::Mainnet).is_ok());
    let bad = DerivationPath { children: vec![hardened(84), ChildNumber { index: 0x8000_0000, hardened: false }] };
    assert!(matches!(derive_address(&[1u8; 32], &bad, Network::Mainnet), Err(AccountError::Path(_))));
}

#[test]
fn register_then_unlock_recovers_the_seed() {
    let mut input = WalletInputBuilder::new();
    input.name("main");
    input.password("password123");
    let phrase = input.mnemonic_as_string();
    let stored = input.build().unwrap();
    assert_eq!(stored.name, "main");
    assert!(stored.encrypted_seed.chars().all(|c| c.is_ascii_hexdigit() && !c.is_ascii_uppercase()));
    let model = WalletModel::from(stored);

    let mut expected = WalletBuilder::new(&phrase);
    expected.passphrase("password123");
    let expected = expected.build().unwrap().seed.unwrap();

    let wallet = Wallet::unlock(&model, "password123").unwrap();
    assert_eq!(wallet.seed.unwrap(), expected);
    assert_eq!(wallet.id.unwrap(), model.id);
    assert_eq!(wallet.name, "main");

    let refused = Wallet::unlock(&model, "wrong");
    assert!(matches!(refused, Err(WalletError::Auth(AuthError::Failed))));
}

#[test]
fn unlock_reports_bad_stored_seed() {
    let mut input = WalletInputBuilder::new();
    input.password("pw");
    let stored = input.build().unwrap();
    let mut model = WalletModel::from(stored);
    model.seed = "not hex".to_string();
    assert!(matches!(Wallet::unlock(&model, "pw"), Err(WalletError::InvalidSeedEncoding)));
    model.seed = "00".repeat(40);
    assert!(matches!(Wallet::unlock(&model, "pw"), Err(WalletError::Cipher(AESError::Decrypt(_)))));
}

#[test]
fn two_accounts_from_one_wallet_differ() {
    let mut input = WalletInputBuilder::new();
    input.name("main");
    input.password("password123");
    let stored = input.build().unwrap();
    let model = WalletModel::from(stored);
    let key = model.authenticate("password123").unwrap();

    let first = PathBuilder::new().change_index(0).index(0).build().unwrap();
    let second = PathBuilder::new().change_index(0).index(1).build().unwrap();

    let mut builder = AccountInputBuilder::from_wallet(model.clone());
    builder.path(first.clone());
    let a = builder.build(key).unwrap();
    builder.path(second.clone());
    let b = builder.build(key).unwrap();
    assert_ne!(a.address, b.address);
    assert_ne!(a.encrypted_path, b.encrypted_path);
    assert_eq!(a.wallet_id, model.id);
    assert_eq!(b.wallet_id, model.id);

    let path_a = decrypt(&key, &from_hex(&a.encrypted_path).unwrap()).unwrap();
    let path_b = decrypt(&key, &from_hex(&b.encrypted_path).unwrap()).unwrap();
    assert_eq!(path_a, b"49'/0'/0'/0/0".to_vec());
    assert_eq!(path_b, b"49'/0'/0'/0/1".to_vec());

    let wallet = Wallet::unlock(&model, "password123").unwrap();
    let acc_a = wallet.create_account(&first, Network::Mainnet).unwrap();
    let acc_b = wallet.create_account(&second, Network::Mainnet).unwrap();
    assert_eq!(acc_a.address, a.address);
    assert_eq!(acc_b.address, b.address);
    assert_ne!(acc_a.path, acc_b.path);
    assert_eq!(acc_b.index, 1);
}

#[test]
fn account_build_rejects_wrong_key() {
    let mut input = WalletInputBuilder::new();
    input.password("pw");
    let model = WalletModel::from(input.build().unwrap());
    let builder = AccountInputBuilder::from_wallet(model);
    assert!(matches!(builder.build([0u8; 32]), Err(AccountError::Building(_))));
}

#[test]
fn locked_wallet_derives_nothing() {
    let wallet = WalletBuilder::from_existing("main");
    assert!(wallet.id.is_none());
    let path = PathBuilder::new().build().unwrap();
    assert!(matches!(wallet.create_account(&path, Network::Mainnet), Err(AccountError::Building(_))));
    let by_id = WalletBuilder::from_existing_id("abc");
    assert_eq!(by_id.id.unwrap(), "abc");
}

#[test]
fn wallet_builder_rejects_bad_phrase() {
    let mut builder = WalletBuilder::new("not a phrase");
    builder.name("x");
    assert!(matches!(builder.build(), Err(WalletError::InvalidMnemonic)));
    let mut good = WalletBuilder::new("x");
    good.mnemonic(ABANDON.to_string());
    good.passphrase("TREZOR");
    let seed = good.build().unwrap().seed.unwrap();
    assert_eq!(to_hex(&seed[..4]), "c55257c3");
}

#[test]
fn names_of_chain_and_network_parse() {
    assert!(matches!(Blockchain::from_string("Bitcoin"), Ok(Blockchain::Bitcoin)));
    assert!(Blockchain::from_string("bitcoin").is_err());
    assert!(matches!(Network::from_string("Mainnet"), Ok(Network::Mainnet)));
    assert!(matches!(Network::from_string("Testnet"), Ok(Network::Testnet)));
    assert!(Network::from_string("Regtest").is_err());
    assert_eq!(Network::Testnet.to_string(), "Testnet");
    assert_eq!(Blockchain::Bitcoin.to_string(), "Bitcoin");
}

#[test]
fn stored_account_columns_parse() {
    let ok = AccountModel::from_columns(
        "id".to_string(),
        "p".to_string(),
        "addr".to_string(),
        "Bitcoin".to_string(),
        "Testnet".to_string(),
        "w".to_string(),
        "now".to_string(),
    )
    .unwrap();
    assert_eq!(ok.network, "Testnet");
    assert_eq!(ok.created_at.unwrap(), "now");
    let bad = AccountModel::from_columns(
        "id".to_string(),
        "p".to_string(),
        "addr".to_string(),
        "Ether".to_string(),
        "Mainnet".to_string(),
        "w".to_string(),
        "now".to_string(),
    );
    assert!(matches!(bad, Err(VaultError::Parser(_))));
}

#[test]
fn path_text_parses() {
    let p = DerivationPath::parse("m/84'/0'/0'/0/1").unwrap();
    assert_eq!(p.children, vec![hardened(84), hardened(0), hardened(0), normal(0), normal(1)]);
    assert_eq!(p.to_string(), "84'/0'/0'/0/1");
    let q = DerivationPath::parse("44h/1").unwrap();
    assert_eq!(q.to_string(), "44'/1");
    assert!(DerivationPath::parse("m").unwrap().children.is_empty());
    assert!(matches!(DerivationPath::parse("84'/x"), Err(AccountError::Path(_))));
    assert!(matches!(DerivationPath::parse("2147483648"), Err(AccountError::Path(_))));
}

#[test]
fn account_builder_from_stored_wallet_uses_default_path() {
    let model = WalletModel {
        id: "w1".to_string(),
        name: "main".to_string(),
        password: String::new(),
        seed: "ab".to_string(),
    };
    let builder = AccountInputBuilder::from(model);
    assert_eq!(builder.path.to_string(), "49'/0'/0'/0/0");
    assert_eq!(builder.wallet_id, "w1");
    assert_eq!(builder.encrypted_seed, "ab");
    assert!(matches!(builder.build([5u8; 32]), Err(AccountError::Building(_))));
}

#[test]
fn fresh_phrases_have_twenty_four_words_and_differ() {
    let a = WalletInputBuilder::new();
    let mut b = WalletInputBuilder::new();
    assert_eq!(a.mnemonic.split_whitespace().count(), 24);
    assert_ne!(a.mnemonic, b.mnemonic);
    let before = b.mnemonic_as_string();
    b.regenerate_mnemonic();
    assert_ne!(before, b.mnemonic_as_string());
    assert_eq!(dev_wallet::mnemonic::generate_mnemonic().split(' ').count(), 24);
}

#[test]
fn stored_records_get_fresh_ids() {
    let input = StoreWalletInput { name: "n".to_string(), encrypted_pass: "p".to_string(), encrypted_seed: "s".to_string() };
    let model = WalletModel::from(input);
    assert_eq!(model.id.len(), 36);
    assert_eq!(model.name, "n");
    let account = dev_wallet::account::StoreAccountInput {
        wallet_id: model.id.clone(),
        address: "a".to_string(),
        encrypted_path: "e".to_string(),
        blockchain: Blockchain::Bitcoin,
        network: Network::Testnet,
    };
    let stored = AccountModel::from(account);
    assert_eq!(stored.id.len(), 36);
    assert_ne!(stored.id, model.id);
    assert_eq!(stored.network, "Testnet");
    assert_eq!(stored.blockchain, "Bitcoin");
    assert_eq!(stored.path, "e");
}

#[test]
fn registration_with_given_salt_and_nonce_is_reproducible() {
    let mut input = WalletInputBuilder::from_phrase(ABANDON);
    input.name("main");
    input.password("password123");
    let salt = "c29tZXNhbHRzb21lc2FsdA";
    let nonce = [4u8; 12];
    let a = input.build_with(salt, &nonce).unwrap();
    let b = input.build_with(salt, &nonce).unwrap();
    assert_eq!(a.encrypted_pass, b.encrypted_pass);
    assert_eq!(a.encrypted_seed, b.encrypted_seed);
    assert_eq!(a.encrypted_seed.len(), 2 * (12 + 64 + 16));
    assert!(a.encrypted_seed.starts_with("040404040404040404040404"));
    assert!(a.encrypted_pass.contains(salt));
    let model = WalletModel::from_input(a);
    let wallet = Wallet::unlock(&model, "password123").unwrap();
    assert_eq!(wallet.seed.unwrap(), abandon_seed_with("password123"));
    assert!(wallet.accounts.is_empty());
    assert!(matches!(input.build_with("", &nonce), Err(WalletError::Hashing)));
}

fn abandon_seed_with(passphrase: &str) -> Vec<u8> {
    let mut builder = WalletBuilder::new(ABANDON);
    builder.passphrase(passphrase);
    let wallet = builder.build().unwrap();
    assert_eq!(wallet.passphrase.clone().unwrap(), passphrase);
    assert!(wallet.accounts.is_empty());
    wallet.seed.unwrap()
}

#[test]
fn unlock_tells_bad_hash_from_wrong_password() {
    let model = WalletModel { id: "i".to_string(), name: "n".to_string(), password: "garbage".to_string(), seed: "00".to_string() };
    assert!(matches!(Wallet::unlock(&model, "pw"), Err(WalletError::Auth(AuthError::Parser(_)))));
}

#[test]
fn sealed_message_lengths() {
    let key = [6u8; 32];
    assert_eq!(encrypt(&key, &[0u8; 100]).unwrap().len(), 12 + 100 + 16);
    for n in 12..28 {
        assert!(matches!(decrypt(&key, &vec![0u8; n]), Err(AESError::Decrypt(_))));
    }
}

#[test]
fn unknown_names_give_the_parse_error() {
    assert_eq!(Blockchain::from_string("Ether").unwrap_err(), "Error parsing");
    assert_eq!(Network::from_string("mainnet").unwrap_err(), "Error parsing");
}

#[test]
fn wrapped_segwit_address_form() {
    let seed = abandon_seed();
    let path = PathBuilder::new().index(4).build().unwrap();
    let address = derive_address(&seed, &path, Network::Mainnet).unwrap();
    assert!(address.starts_with('3'));
    let native = PathBuilder::new().address_kind(PathAddressKind::NativeSegWit).index(9).build().unwrap();
    assert_eq!(derive_address(&seed, &native, Network::Mainnet).unwrap().len(), 42);
}

#[test]
fn account_build_derives_on_the_main_network() {
    let mut input = WalletInputBuilder::from_phrase(ABANDON);
    input.password("pw");
    let stored = input.build().unwrap();
    assert!(stored.encrypted_pass.starts_with("$argon2id$"));
    let model = WalletModel::from(stored);
    let key = model.authenticate("pw").unwrap();
    let mut builder = AccountInputBuilder::from_wallet(model);
    builder.network(Network::Testnet);
    builder.path(PathBuilder::new().address_kind(PathAddressKind::NativeSegWit).build().unwrap());
    let account = builder.build(key).unwrap();
    assert!(matches!(account.network, Network::Mainnet));
    assert!(account.address.starts_with("bc1q"));
    assert_eq!(account.address.len(), 42);
    let seed = abandon_seed_with("pw");
    assert_eq!(seed.len(), 64);
    let path = PathBuilder::new().address_kind(PathAddressKind::NativeSegWit).build().unwrap();
    assert_eq!(account.address, derive_address(&seed, &path, Network::Mainnet).unwrap());
}
