//! The stronghold calls the vault is built on. Most promise nothing that
//! the vault's decisions could use (they depend on the stronghold's state,
//! its locks or a random source); where the stronghold source does promise
//! something, the call's contract states it.
use crate::location::Location;
use iota_stronghold::procedures::{GenerateKey, ProcedureError, PublicKey};
use iota_stronghold::{Client, ClientError, KeyProvider, Stronghold};
use vstd::prelude::*;

verus! {

#[verifier::external_type_specification]
#[verifier::external_body]
pub struct ExStronghold(Stronghold);

#[verifier::external_type_specification]
#[verifier::external_body]
pub struct ExClient(Client);

#[verifier::external_type_specification]
#[verifier::external_body]
pub struct ExKeyProvider(KeyProvider);

#[verifier::external_type_specification]
#[verifier::external_body]
pub struct ExClientError(ClientError);

#[verifier::external_type_specification]
#[verifier::external_body]
pub struct ExProcedureError(ProcedureError);

/// The key algorithms a stronghold procedure can be asked for.
#[derive(Debug, Clone, Copy, PartialEq, Eq, Structural)]
pub enum KeyType {
    Ed25519,
    X25519,
    Secp256k1Ecdsa,
}

/// Which kind of `ClientError` a stronghold call failed with.
#[derive(Debug, Clone, Copy, PartialEq, Eq, Structural)]
pub enum StoreFault {
    LockAcquireFailed,
    NoValuePresent,
    Inner,
    Engine,
    Provider,
    ClientDataNotPresent,
    SnapshotFileMissing,
    IllegalKeySize,
    SnapshotKeyLocationMissing,
    ClientAlreadyLoaded,
    /// Access, connection and any other failure.
    Other,
}

/// Relies on the variants of `iota_stronghold::ClientError`: one fault for
/// each of those the vault's calls can return, `Other` for the rest.
#[verifier::external_body]
pub(crate) fn fault_of(e: &ClientError) -> StoreFault {
    match e {
        ClientError::LockAcquireFailed => StoreFault::LockAcquireFailed,
        ClientError::NoValuePresent(_) => StoreFault::NoValuePresent,
        ClientError::Inner(_) => StoreFault::Inner,
        ClientError::Engine(_) => StoreFault::Engine,
        ClientError::Provider(_) => StoreFault::Provider,
        ClientError::ClientDataNotPresent => StoreFault::ClientDataNotPresent,
        ClientError::SnapshotFileMissing(_) => StoreFault::SnapshotFileMissing,
        ClientError::IllegalKeySize(_) => StoreFault::IllegalKeySize,
        ClientError::SnapshotKeyLocationMissing => StoreFault::SnapshotKeyLocationMissing,
        ClientError::ClientAlreadyLoaded(_) => StoreFault::ClientAlreadyLoaded,
        _ => StoreFault::Other,
    }
}

/// Relies on `Stronghold::default`: an empty stronghold with no clients.
#[verifier::external_body]
pub(crate) fn new_stronghold() -> Stronghold {
    Stronghold::default()
}

/// Relies on `Stronghold::create_client`: registers an empty client under
/// the id, replacing one of the same id; fails only on a poisoned lock.
#[verifier::external_body]
pub(crate) fn create_client(s: &Stronghold, id: &Vec<u8>) -> Result<Client, ClientError> {
    s.create_client(id)
}

/// Relies on `Stronghold::load_client`: restores a client from the snapshot
/// state already loaded into the stronghold.
#[verifier::external_body]
pub(crate) fn load_client(s: &Stronghold, id: &Vec<u8>) -> Result<Client, ClientError> {
    s.load_client(id)
}

/// Relies on `Stronghold::unload_client`: removes the client from those the
/// stronghold holds in memory.
#[verifier::external_body]
pub(crate) fn unload_client(s: &Stronghold, c: Client) -> Result<Client, ClientError> {
    s.unload_client(c)
}

/// Relies on `Stronghold::get_client`: the client held in memory under the id.
#[verifier::external_body]
pub(crate) fn get_client(s: &Stronghold, id: &Vec<u8>) -> Result<Client, ClientError> {
    s.get_client(id)
}

/// Relies on `Stronghold::write_client`: copies the client's state into the
/// stronghold's in-memory snapshot state.
#[verifier::external_body]
pub(crate) fn write_client(s: &Stronghold, id: &Vec<u8>) -> Result<(), ClientError> {
    s.write_client(id)
}

/// Relies on `Client::record_exists`: whether a record is stored at the
/// location.
#[verifier::external_body]
pub(crate) fn record_exists(c: &Client, loc: &Location) -> Result<bool, ClientError> {
    let loc = iota_stronghold::Location::generic(loc.vault_path.clone(), loc.record_path.clone());
    c.record_exists(&loc)
}

/// Relies on `Client::execute_procedure` with `GenerateKey`: stores fresh
/// key material of the type at the location and returns nothing of it.
#[verifier::external_body]
pub(crate) fn run_generate_key(c: &Client, ty: KeyType, loc: &Location) -> Result<(), ProcedureError> {
    let ty = match ty {
        KeyType::Ed25519 => iota_stronghold::procedures::KeyType::Ed25519,
        KeyType::X25519 => iota_stronghold::procedures::KeyType::X25519,
        KeyType::Secp256k1Ecdsa => iota_stronghold::procedures::KeyType::Secp256k1Ecdsa,
    };
    let loc = iota_stronghold::Location::generic(loc.vault_path.clone(), loc.record_path.clone());
    c.execute_procedure(GenerateKey { ty, output: loc })
}

/// Relies on `Client::execute_procedure` with `PublicKey`: for Ed25519 the
/// 32 bytes of `ed25519::PublicKey::to_bytes`.
#[verifier::external_body]
pub(crate) fn run_public_key(c: &Client, ty: KeyType, loc: &Location) -> (r: Result<Vec<u8>, ProcedureError>)
    ensures
        ty == KeyType::Ed25519 && r is Ok ==> r->Ok_0@.len() == 32,
{
    let ty = match ty {
        KeyType::Ed25519 => iota_stronghold::procedures::KeyType::Ed25519,
        KeyType::X25519 => iota_stronghold::procedures::KeyType::X25519,
        KeyType::Secp256k1Ecdsa => iota_stronghold::procedures::KeyType::Secp256k1Ecdsa,
    };
    let loc = iota_stronghold::Location::generic(loc.vault_path.clone(), loc.record_path.clone());
    c.execute_procedure(PublicKey { ty, private_key: loc })
}

/// Relies on `KeyProvider::try_from`: accepts exactly the keys of 32 bytes.
#[verifier::external_body]
pub(crate) fn key_provider(key: &Vec<u8>) -> (r: Option<KeyProvider>)
    ensures
        r is Some <==> key@.len() == 32,
{
    KeyProvider::try_from(zeroize::Zeroizing::new(key.clone())).ok()
}

} // verus!
