use crate::backend::{
    create_client, fault_of, get_client, load_client, new_stronghold, record_exists, run_generate_key,
    run_public_key, unload_client, write_client, KeyType, StoreFault,
};
use crate::error::VaultError;
use crate::location::Location;
use iota_stronghold::{Client, Stronghold};
use vstd::prelude::*;

verus! {

/// Whether two byte strings are equal.
pub fn bytes_eq(a: &Vec<u8>, b: &Vec<u8>) -> (r: bool)
    ensures
        r == (a@ == b@),
{
    if a.len() != b.len() {
        return false;
    }
    let mut i: usize = 0;
    while i < a.len()
        invariant
            a@.len() == b@.len(),
            i <= a@.len(),
            forall|j: int| 0 <= j < i ==> a@[j] == b@[j],
        decreases a@.len() - i,
    {
        if a[i] != b[i] {
            return false;
        }
        i = i + 1;
    }
    assert(a@ =~= b@);
    true
}

/// The error a failed read of snapshot state is reported as: a missing
/// file or directory is a file system failure, a namespace that the
/// snapshot lacks or one already in memory is named as such, and every
/// other failure (a wrong key, a damaged file) is a failed decryption.
pub open spec fn read_error_of(f: StoreFault) -> VaultError {
    match f {
        StoreFault::SnapshotFileMissing => VaultError::IOFailure,
        StoreFault::ClientDataNotPresent => VaultError::ClientNotFound,
        StoreFault::ClientAlreadyLoaded => VaultError::AlreadyExists,
        _ => VaultError::DecryptionFailed,
    }
}

/// Classifies a failed read of snapshot state.
pub fn read_error(f: StoreFault) -> (r: VaultError)
    ensures
        r == read_error_of(f),
{
    match f {
        StoreFault::SnapshotFileMissing => VaultError::IOFailure,
        StoreFault::ClientDataNotPresent => VaultError::ClientNotFound,
        StoreFault::ClientAlreadyLoaded => VaultError::AlreadyExists,
        _ => VaultError::DecryptionFailed,
    }
}

/// What a lookup of the key slot decides: a record found there may be
/// read; an empty slot, or a lookup that failed, is `NotFound`.
pub open spec fn slot_verdict(found: Result<bool, StoreFault>) -> Result<(), VaultError> {
    match found {
        Ok(true) => Ok(()),
        _ => Err(VaultError::NotFound),
    }
}

/// Decides from the outcome of a record lookup whether the slot may be read.
pub fn check_slot(found: Result<bool, StoreFault>) -> (r: Result<(), VaultError>)
    ensures
        r == slot_verdict(found),
{
    match found {
        Ok(true) => Ok(()),
        _ => Err(VaultError::NotFound),
    }
}

/// Reads the Ed25519 public key of the record at `loc` of `client`.
fn read_public_key(client: &Client, loc: &Location) -> (r: Result<Vec<u8>, VaultError>)
    ensures
        r is Ok ==> r->Ok_0@.len() == 32,
        r is Err ==> r == Err::<Vec<u8>, VaultError>(VaultError::NotFound) || r == Err::<Vec<u8>, VaultError>(
            VaultError::TypeMismatch,
        ),
{
    let found = match record_exists(client, loc) {
        Ok(b) => Ok(b),
        Err(e) => Err(fault_of(&e)),
    };
    match check_slot(found) {
        Ok(()) => {},
        Err(e) => return Err(e),
    }
    match run_public_key(client, KeyType::Ed25519, loc) {
        Ok(pk) => Ok(pk),
        Err(_) => Err(VaultError::TypeMismatch),
    }
}

/// The in-memory secret store: a stronghold and the ids of the client
/// namespaces it holds. Every namespace is created or loaded through this
/// value.
pub struct Vault {
    engine: Stronghold,
    held: Vec<Vec<u8>>,
}

impl Vault {
    /// The ids of the namespaces held, in the order they were added.
    pub closed spec fn view(&self) -> Seq<Seq<u8>> {
        self.held@.map_values(|v: Vec<u8>| v@)
    }

    /// No id is held twice.
    pub open spec fn wf(&self) -> bool {
        self.view().no_duplicates()
    }

    /// An empty vault.
    pub fn new() -> (r: Vault)
        ensures
            r.view() == Seq::<Seq<u8>>::empty(),
            r.wf(),
    {
        let r = Vault { engine: new_stronghold(), held: Vec::new() };
        assert(r.view() =~= Seq::<Seq<u8>>::empty());
        r
    }

    /// The stronghold that holds the namespaces, for persisting them.
    pub fn engine(&self) -> &Stronghold {
        &self.engine
    }

    /// Whether a namespace with this id is held.
    pub fn holds(&self, id: &Vec<u8>) -> (r: bool)
        ensures
            r == self.view().contains(id@),
    {
        let mut i: usize = 0;
        while i < self.held.len()
            invariant
                i <= self.held@.len(),
                forall|j: int| 0 <= j < i ==> self.view()[j] != id@,
            decreases self.held@.len() - i,
        {
            if bytes_eq(&self.held[i], id) {
                assert(self.view()[i as int] == id@);
                return true;
            }
            i = i + 1;
        }
        false
    }

    proof fn lemma_push(&self, old_held: Seq<Vec<u8>>, id: Seq<u8>)
        requires
            old_held.map_values(|v: Vec<u8>| v@).no_duplicates(),
            !old_held.map_values(|v: Vec<u8>| v@).contains(id),
            self.held@.len() == old_held.len() + 1,
            self.held@.drop_last() == old_held,
            self.held@.last()@ == id,
        ensures
            self.view() == old_held.map_values(|v: Vec<u8>| v@).push(id),
            self.wf(),
    {
        assert(self.view() =~= old_held.map_values(|v: Vec<u8>| v@).push(id));
    }

    /// Registers an empty namespace under `id`. Fails with `AlreadyExists`
    /// when the id is already held: a namespace is never silently replaced.
    pub fn create_namespace(&mut self, id: &Vec<u8>) -> (r: Result<(), VaultError>)
        requires
            old(self).wf(),
        ensures
            final(self).wf(),
            old(self).view().contains(id@) ==> r == Err::<(), VaultError>(VaultError::AlreadyExists),
            r is Ok ==> final(self).view() == old(self).view().push(id@),
            r is Err ==> final(self).view() == old(self).view(),
            !old(self).view().contains(id@) ==> r is Ok || r == Err::<(), VaultError>(VaultError::StoreWriteFailed),
    {
        if self.holds(id) {
            return Err(VaultError::AlreadyExists);
        }
        match create_client(&self.engine, id) {
            Ok(_) => {
                let ghost old_held = self.held@;
                self.held.push(id.clone());
                proof {
                    assert(self.held@.drop_last() =~= old_held);
                    self.lemma_push(old_held, id@);
                }
                Ok(())
            },
            Err(_) => Err(VaultError::StoreWriteFailed),
        }
    }

    /// Brings the namespace `id` into memory from the snapshot state that
    /// the stronghold has loaded, and reads out the public key at `loc`.
    /// When the key cannot be read the namespace is dropped again, so every
    /// failure leaves the vault as it was.
    pub fn materialize_key(&mut self, id: &Vec<u8>, loc: &Location) -> (r: Result<Vec<u8>, VaultError>)
        requires
            old(self).wf(),
        ensures
            final(self).wf(),
            old(self).view().contains(id@) ==> r == Err::<Vec<u8>, VaultError>(VaultError::AlreadyExists),
            r is Ok ==> final(self).view() == old(self).view().push(id@),
            r is Ok ==> r->Ok_0@.len() == 32,
            r is Err ==> final(self).view() == old(self).view(),
            r is Err ==> r == Err::<Vec<u8>, VaultError>(VaultError::NotFound) || r == Err::<Vec<u8>, VaultError>(
                VaultError::TypeMismatch,
            ) || exists|f: StoreFault| r == Err::<Vec<u8>, VaultError>(#[trigger] read_error_of(f)),
    {
        if self.holds(id) {
            proof { assert(VaultError::AlreadyExists == read_error_of(StoreFault::ClientAlreadyLoaded)); }
            return Err(VaultError::AlreadyExists);
        }
        let client = match load_client(&self.engine, id) {
            Ok(c) => c,
            Err(e) => return Err(read_error(fault_of(&e))),
        };
        match read_public_key(&client, loc) {
            Ok(pk) => {
                let ghost old_held = self.held@;
                self.held.push(id.clone());
                proof {
                    assert(self.held@.drop_last() =~= old_held);
                    self.lemma_push(old_held, id@);
                }
                Ok(pk)
            },
            Err(e) => {
                let _ = unload_client(&self.engine, client);
                Err(e)
            },
        }
    }

    /// Copies the namespace into the stronghold's snapshot state, ready to be
    /// committed.
    pub fn write_namespace(&self, id: &Vec<u8>) -> (r: Result<(), VaultError>)
        ensures
            r == Err::<(), VaultError>(VaultError::ClientNotFound) <==> !self.view().contains(id@),
            r is Err ==> r == Err::<(), VaultError>(VaultError::ClientNotFound) || r == Err::<(), VaultError>(
                VaultError::StoreWriteFailed,
            ),
    {
        if !self.holds(id) {
            return Err(VaultError::ClientNotFound);
        }
        match write_client(&self.engine, id) {
            Ok(()) => Ok(()),
            Err(_) => Err(VaultError::StoreWriteFailed),
        }
    }

    /// Generates fresh key material of type `ty` and stores it at `loc` in
    /// namespace `id`, replacing a record already there. Nothing of the
    /// material is returned. Only Ed25519 keys are generated.
    pub fn generate_key(&self, id: &Vec<u8>, ty: KeyType, loc: &Location) -> (r: Result<(), VaultError>)
        ensures
            r == Err::<(), VaultError>(VaultError::UnsupportedKeyType) <==> ty != KeyType::Ed25519,
            ty == KeyType::Ed25519 && !self.view().contains(id@) ==> r == Err::<(), VaultError>(
                VaultError::StoreWriteFailed,
            ),
            r is Err ==> r == Err::<(), VaultError>(VaultError::UnsupportedKeyType) || r == Err::<(), VaultError>(
                VaultError::StoreWriteFailed,
            ),
    {
        if ty != KeyType::Ed25519 {
            return Err(VaultError::UnsupportedKeyType);
        }
        if !self.holds(id) {
            return Err(VaultError::StoreWriteFailed);
        }
        let client = match get_client(&self.engine, id) {
            Ok(c) => c,
            Err(_) => return Err(VaultError::StoreWriteFailed),
        };
        match run_generate_key(&client, ty, loc) {
            Ok(()) => Ok(()),
            Err(_) => Err(VaultError::StoreWriteFailed),
        }
    }

    /// The public half of the key stored at `loc` in namespace `id`. Every
    /// key this vault stores is an Ed25519 key, so another requested type is
    /// a mismatch; so is a record that is no Ed25519 key. An empty slot is
    /// `NotFound`. The private bytes never leave the stronghold.
    pub fn public_key(&self, id: &Vec<u8>, ty: KeyType, loc: &Location) -> (r: Result<Vec<u8>, VaultError>)
        ensures
            ty != KeyType::Ed25519 ==> r == Err::<Vec<u8>, VaultError>(VaultError::TypeMismatch),
            r == Err::<Vec<u8>, VaultError>(VaultError::ClientNotFound) <==> ty == KeyType::Ed25519
                && !self.view().contains(id@),
            r is Ok ==> r->Ok_0@.len() == 32,
            r is Err ==> r == Err::<Vec<u8>, VaultError>(VaultError::TypeMismatch) || r == Err::<
                Vec<u8>,
                VaultError,
            >(VaultError::ClientNotFound) || r == Err::<Vec<u8>, VaultError>(VaultError::NotFound),
    {
        if ty != KeyType::Ed25519 {
            return Err(VaultError::TypeMismatch);
        }
        if !self.holds(id) {
            return Err(VaultError::ClientNotFound);
        }
        let client = match get_client(&self.engine, id) {
            Ok(c) => c,
            Err(_) => return Err(VaultError::NotFound),
        };
        read_public_key(&client, loc)
    }
}

} // verus!
