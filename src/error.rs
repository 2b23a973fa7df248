use vstd::prelude::*;

verus! {

/// Every way an operation of the vault can fail.
#[derive(Debug, Clone, Copy, PartialEq, Eq, Structural)]
pub enum VaultError {
    /// A namespace with this client id is already held in memory.
    AlreadyExists,
    /// No record is stored at the requested location.
    NotFound,
    /// The namespace is neither in memory nor in the snapshot.
    ClientNotFound,
    /// Wrong passphrase, or a corrupted or tampered snapshot.
    DecryptionFailed,
    /// The requested key type is not one the vault can generate.
    UnsupportedKeyType,
    /// The stored material is not of the requested key type.
    TypeMismatch,
    /// The file system refused the operation.
    IOFailure,
    /// The snapshot was written in a format this vault does not read.
    UnsupportedSnapshotVersion,
    /// An operation exceeded its allotted time.
    Timeout,
    /// The namespace could not take the new record.
    StoreWriteFailed,
}

impl VaultError {
    /// A short message for callers that does not tell a wrong passphrase
    /// apart from a damaged snapshot.
    pub fn message(&self) -> (r: &'static str)
        ensures
            *self == VaultError::DecryptionFailed ==> r@ == "snapshot could not be opened"@,
    {
        proof { reveal_strlit("snapshot could not be opened"); }
        match self {
            VaultError::AlreadyExists => "namespace already exists",
            VaultError::NotFound => "no record at this location",
            VaultError::ClientNotFound => "namespace not found",
            VaultError::DecryptionFailed => "snapshot could not be opened",
            VaultError::UnsupportedKeyType => "unsupported key type",
            VaultError::TypeMismatch => "stored key has another type",
            VaultError::IOFailure => "file system error",
            VaultError::UnsupportedSnapshotVersion => "unsupported snapshot version",
            VaultError::Timeout => "operation timed out",
            VaultError::StoreWriteFailed => "record could not be stored",
        }
    }
}

} // verus!
