//! What the library needs of the store that keeps wallet and account records.
use vstd::prelude::*;

verus! {

pub enum ConnectionType {
    InMemory,
    OnDisk,
}

#[derive(Debug)]
pub enum VaultError {
    NotFound(String),
    Listing(String),
    Parser(String),
    Inserting(String),
    Removing(String),
    Migrating(String),
}

pub type VaultResult<T> = Result<T, VaultError>;

/// Where the store lives.
pub struct Config {
    pub database_url: String,
}

} // verus!
