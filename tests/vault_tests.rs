use iota_stronghold::{ClientError, SnapshotPath};
use vault_engine::backend::{KeyType, StoreFault};
use vault_engine::error::VaultError;
use vault_engine::kdf::derive_key;
use vault_engine::location::Location;
use vault_engine::locks::PathLocks;
use vault_engine::header::check_header;
use vault_engine::session::{finish_load, finish_save, stage_save, store_outcome};
use vault_engine::vault::{bytes_eq, read_error, Vault};

fn hex(b: &[u8]) -> String {
    b.iter().map(|x| format!("{:02x}", x)).collect()
}

// Snapshot encryption strengthens the key with scrypt; a low work factor
// keeps these unoptimised test builds fast.
fn fast_snapshots() {
    iota_stronghold::engine::snapshot::try_set_encrypt_work_factor(0).unwrap();
}

fn save(client: &str, path: &str, passphrase: &str) -> String {
    fast_snapshots();
    let mut vault = Vault::new();
    let staged = stage_save(&mut vault, client, passphrase).expect("stage");
    assert_eq!(staged.snapshot_key.as_bytes(), derive_key(passphrase).as_bytes());
    let snapshot = SnapshotPath::from_path(path);
    let committed = store_outcome(vault.engine().commit_with_keyprovider(&snapshot, &staged.snapshot_key.to_provider()));
    finish_save(&staged.public_key, committed).expect("commit")
}

// The tag that heads every snapshot this stronghold version writes.
fn current_head() -> Option<Vec<u8>> {
    Some(vec![0x50, 0x41, 0x52, 0x54, 0x49, 3, 0])
}

fn load_with_head(client: &str, path: &str, passphrase: &str, head: Option<Vec<u8>>) -> Result<String, VaultError> {
    let mut vault = Vault::new();
    let key = derive_key(passphrase).to_provider();
    let snapshot = SnapshotPath::from_path(path);
    let opened = store_outcome(vault.engine().load_snapshot(&key, &snapshot));
    finish_load(&mut vault, client, &head, opened)
}

fn load(client: &str, path: &str, passphrase: &str) -> Result<String, VaultError> {
    load_with_head(client, path, passphrase, current_head())
}

#[test]
fn blake2b_of_empty_input() {
    assert_eq!(
        hex(derive_key("").as_bytes()),
        "0e5751c026e543b2e8ab2eb06099daa1d1e5df47778f7787faab45cdf12fe3a8"
    );
}

#[test]
fn derived_key_is_deterministic() {
    let a = derive_key("correct-horse");
    let b = derive_key("correct-horse");
    assert_eq!(a.as_bytes(), b.as_bytes());
    assert_eq!(a.as_bytes().len(), 32);
}

#[test]
fn distinct_passphrases_derive_distinct_keys() {
    let a = derive_key("correct-horse");
    let b = derive_key("wrong-passphrase");
    assert_ne!(a.as_bytes(), b.as_bytes());
    assert_eq!(derive_key("").as_bytes().len(), 32);
}

#[test]
fn derived_key_hashes_the_passphrase() {
    assert_eq!(
        hex(derive_key("abc").as_bytes()),
        "bddd813c634239723171ef3fee98579b94964e3bb1cb3e427262c8c068d52319"
    );
    assert_ne!(derive_key("abc").as_bytes(), &b"abc".to_vec());
}

#[test]
fn key_slot_uses_fixed_segments() {
    let slot = Location::key_slot();
    assert_eq!(slot.vault_path, b"value_path/pluto".to_vec());
    assert_eq!(slot.record_path, b"record_path/pippo".to_vec());
    let other = Location::generic("v", "r");
    assert_eq!(other.vault_path, b"v".to_vec());
    assert_eq!(other.record_path, b"r".to_vec());
}

#[test]
fn bytes_eq_compares_contents() {
    assert!(bytes_eq(&vec![1, 2, 3], &vec![1, 2, 3]));
    assert!(!bytes_eq(&vec![1, 2, 3], &vec![1, 2, 4]));
    assert!(!bytes_eq(&vec![1, 2], &vec![1, 2, 3]));
    assert!(bytes_eq(&vec![], &vec![]));
}

#[test]
fn read_errors_are_classified() {
    assert_eq!(read_error(StoreFault::ClientDataNotPresent), VaultError::ClientNotFound);
    assert_eq!(read_error(StoreFault::ClientAlreadyLoaded), VaultError::AlreadyExists);
    assert_eq!(read_error(StoreFault::Inner), VaultError::DecryptionFailed);
    assert_eq!(read_error(StoreFault::SnapshotFileMissing), VaultError::IOFailure);
}

#[test]
fn decryption_message_does_not_leak_cause() {
    assert_eq!(VaultError::DecryptionFailed.message(), "snapshot could not be opened");
    assert_eq!(VaultError::AlreadyExists.message(), "namespace already exists");
}

#[test]
fn creating_a_namespace_twice_is_rejected() {
    let mut vault = Vault::new();
    let id = b"alice".to_vec();
    assert!(!vault.holds(&id));
    assert_eq!(vault.create_namespace(&id), Ok(()));
    assert!(vault.holds(&id));
    assert_eq!(vault.create_namespace(&id), Err(VaultError::AlreadyExists));
    assert_eq!(vault.create_namespace(&b"bob".to_vec()), Ok(()));
}

#[test]
fn generate_key_rejects_other_types_and_unknown_namespaces() {
    let mut vault = Vault::new();
    let id = b"alice".to_vec();
    let slot = Location::key_slot();
    assert_eq!(vault.generate_key(&id, KeyType::Ed25519, &slot), Err(VaultError::StoreWriteFailed));
    vault.create_namespace(&id).unwrap();
    assert_eq!(vault.generate_key(&id, KeyType::X25519, &slot), Err(VaultError::UnsupportedKeyType));
    assert_eq!(
        vault.generate_key(&id, KeyType::Secp256k1Ecdsa, &slot),
        Err(VaultError::UnsupportedKeyType)
    );
    assert_eq!(vault.generate_key(&id, KeyType::Ed25519, &slot), Ok(()));
}

#[test]
fn public_key_errors() {
    let mut vault = Vault::new();
    let id = b"alice".to_vec();
    let slot = Location::key_slot();
    assert_eq!(vault.public_key(&id, KeyType::Ed25519, &slot), Err(VaultError::ClientNotFound));
    vault.create_namespace(&id).unwrap();
    assert_eq!(vault.public_key(&id, KeyType::Ed25519, &slot), Err(VaultError::NotFound));
    vault.generate_key(&id, KeyType::Ed25519, &slot).unwrap();
    assert_eq!(vault.public_key(&id, KeyType::X25519, &slot), Err(VaultError::TypeMismatch));
    let elsewhere = Location::generic("other", "slot");
    assert_eq!(vault.public_key(&id, KeyType::Ed25519, &elsewhere), Err(VaultError::NotFound));
}

#[test]
fn public_key_is_stable_and_fixed_length() {
    let mut vault = Vault::new();
    let id = b"alice".to_vec();
    let slot = Location::key_slot();
    vault.create_namespace(&id).unwrap();
    vault.generate_key(&id, KeyType::Ed25519, &slot).unwrap();
    let a = vault.public_key(&id, KeyType::Ed25519, &slot).unwrap();
    let b = vault.public_key(&id, KeyType::Ed25519, &slot).unwrap();
    assert_eq!(a, b);
    assert_eq!(a.len(), 32);
}

#[test]
fn regenerating_a_key_replaces_it() {
    let mut vault = Vault::new();
    let id = b"alice".to_vec();
    let slot = Location::key_slot();
    vault.create_namespace(&id).unwrap();
    vault.generate_key(&id, KeyType::Ed25519, &slot).unwrap();
    let a = vault.public_key(&id, KeyType::Ed25519, &slot).unwrap();
    vault.generate_key(&id, KeyType::Ed25519, &slot).unwrap();
    let b = vault.public_key(&id, KeyType::Ed25519, &slot).unwrap();
    assert_ne!(a, b);
}

#[test]
fn finish_save_encodes_or_reports_io_failure() {
    let pk = vec![0u8; 32];
    assert_eq!(
        finish_save(&pk, Ok(())),
        Ok("AAAAAAAAAAAAAAAAAAAAAAAAAAAAAAAAAAAAAAAAAAA=".to_string())
    );
    assert_eq!(finish_save(&vec![1, 2, 3], Ok(())), Ok("AQID".to_string()));
    assert_eq!(finish_save(&pk, Err(StoreFault::Inner)), Err(VaultError::IOFailure));
}

#[test]
fn finish_load_reports_open_failures() {
    let mut vault = Vault::new();
    assert_eq!(
        finish_load(&mut vault, "alice", &current_head(), Err(StoreFault::Inner)),
        Err(VaultError::DecryptionFailed)
    );
    assert!(!vault.holds(&b"alice".to_vec()));
    assert_eq!(
        finish_load(&mut vault, "alice", &current_head(), Err(StoreFault::SnapshotFileMissing)),
        Err(VaultError::IOFailure)
    );
    assert_eq!(finish_load(&mut vault, "alice", &None, Ok(())), Err(VaultError::IOFailure));
    let old_version = Some(vec![0x50, 0x41, 0x52, 0x54, 0x49, 2, 0]);
    assert_eq!(
        finish_load(&mut vault, "alice", &old_version, Ok(())),
        Err(VaultError::UnsupportedSnapshotVersion)
    );
    assert!(!vault.holds(&b"alice".to_vec()));
}

#[test]
fn path_locks_are_exclusive() {
    let mut locks = PathLocks::new();
    let p = b"vault.stronghold".to_vec();
    assert!(!locks.is_locked(&p));
    assert!(locks.try_acquire(&p));
    assert!(locks.is_locked(&p));
    assert!(!locks.try_acquire(&p));
    assert!(locks.try_acquire(&b"other.stronghold".to_vec()));
    assert!(locks.release(&p));
    assert!(!locks.is_locked(&p));
    assert!(!locks.release(&p));
    assert!(locks.try_acquire(&p));
}

#[test]
fn save_then_load_gives_the_same_public_key() {
    let path = "/tmp/vault_engine_scenario_alice.stronghold";
    let saved = save("alice", path, "correct-horse");
    assert_eq!(saved.len(), 44);
    let loaded = load("alice", path, "correct-horse");
    assert_eq!(loaded, Ok(saved));
}

#[test]
fn wrong_passphrase_fails_decryption() {
    let path = "/tmp/vault_engine_scenario_wrong_key.stronghold";
    save("alice", path, "correct-horse");
    assert_eq!(load("alice", path, "wrong-passphrase"), Err(VaultError::DecryptionFailed));
}

#[test]
fn missing_client_is_reported() {
    let path = "/tmp/vault_engine_scenario_missing_client.stronghold";
    save("alice", path, "correct-horse");
    assert_eq!(load("bob", path, "correct-horse"), Err(VaultError::ClientNotFound));
}

#[test]
fn committing_again_overwrites_the_snapshot() {
    let path = "/tmp/vault_engine_scenario_overwrite.stronghold";
    let first = save("alice", path, "correct-horse");
    let second = save("alice", path, "correct-horse");
    assert_ne!(first, second);
    assert_eq!(load("alice", path, "correct-horse"), Ok(second));
    save("alice", path, "new-passphrase");
    assert_eq!(load("alice", path, "correct-horse"), Err(VaultError::DecryptionFailed));
}

#[test]
fn store_outcomes_keep_the_error_kind() {
    assert_eq!(store_outcome(Ok(())), Ok(()));
    assert_eq!(
        store_outcome(Err(ClientError::ClientDataNotPresent)),
        Err(StoreFault::ClientDataNotPresent)
    );
    assert_eq!(
        store_outcome(Err(ClientError::SnapshotFileMissing("gone".to_string()))),
        Err(StoreFault::SnapshotFileMissing)
    );
    assert_eq!(store_outcome(Err(ClientError::Inner("bad tag".to_string()))), Err(StoreFault::Inner));
    assert_eq!(store_outcome(Err(ClientError::NoReadAccess)), Err(StoreFault::Other));
}

#[test]
fn missing_snapshot_file_is_a_file_system_failure() {
    let path = "/tmp/vault_engine_no_such_dir/none.stronghold";
    assert_eq!(load_with_head("alice", path, "correct-horse", None), Err(VaultError::IOFailure));
    assert_eq!(load("alice", path, "correct-horse"), Err(VaultError::IOFailure));
}

#[test]
fn header_tags_are_checked() {
    assert_eq!(check_header(&current_head()), Ok(()));
    assert_eq!(check_header(&Some(vec![0x50, 0x41, 0x52, 0x54, 0x49, 3, 0, 9, 9])), Ok(()));
    assert_eq!(check_header(&None), Err(VaultError::IOFailure));
    assert_eq!(check_header(&Some(vec![])), Err(VaultError::DecryptionFailed));
    assert_eq!(check_header(&Some(vec![0x50, 0x41, 0x52, 0x54, 0x49, 3])), Err(VaultError::DecryptionFailed));
    assert_eq!(check_header(&Some(vec![0x51, 0x41, 0x52, 0x54, 0x49, 3, 0])), Err(VaultError::DecryptionFailed));
    assert_eq!(
        check_header(&Some(vec![0x50, 0x41, 0x52, 0x54, 0x49, 2, 0])),
        Err(VaultError::UnsupportedSnapshotVersion)
    );
    assert_eq!(
        check_header(&Some(vec![0x50, 0x41, 0x52, 0x54, 0x49, 3, 1])),
        Err(VaultError::UnsupportedSnapshotVersion)
    );
}

#[test]
fn unsupported_version_is_reported_before_decryption() {
    let path = "/tmp/vault_engine_scenario_version.stronghold";
    save("alice", path, "correct-horse");
    let future = Some(vec![0x50, 0x41, 0x52, 0x54, 0x49, 4, 0]);
    assert_eq!(
        load_with_head("alice", path, "correct-horse", future),
        Err(VaultError::UnsupportedSnapshotVersion)
    );
}

#[test]
fn failed_load_leaves_the_vault_unchanged() {
    let mut vault = Vault::new();
    assert_eq!(finish_load(&mut vault, "alice", &current_head(), Ok(())), Err(VaultError::ClientNotFound));
    assert!(!vault.holds(&b"alice".to_vec()));
    assert_eq!(vault.create_namespace(&b"alice".to_vec()), Ok(()));
}

#[test]
fn derived_key_becomes_a_provider() {
    let _provider = derive_key("correct-horse").to_provider();
}

#[test]
fn saving_a_held_namespace_is_rejected() {
    let mut vault = Vault::new();
    assert!(stage_save(&mut vault, "alice", "pw").is_ok());
    assert!(vault.holds(&b"alice".to_vec()));
    assert!(matches!(stage_save(&mut vault, "alice", "pw"), Err(VaultError::AlreadyExists)));
}
