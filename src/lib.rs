//! Hierarchical-deterministic wallet core: derivation paths, address
//! derivation from a master seed, seed encryption under a password-derived key,
//! and the register / unlock protocol that ties them together.
pub mod account;
pub mod cipher;
pub mod deriver;
pub mod hex_text;
pub mod mnemonic;
pub mod password;
pub mod path_builder;
pub mod text;
pub mod vault;
pub mod wallet;
