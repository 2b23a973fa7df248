//! The two requests the vault serves, as steps around the snapshot file
//! access that the caller performs: a save creates a namespace, generates
//! its key and stages it for the commit; a load checks the file's format
//! tag, materializes a namespace from the opened snapshot and reads out its
//! public key.
use crate::backend::{fault_of, KeyType, StoreFault};
use crate::error::VaultError;
use crate::header::{check_header, head_view, header_verdict};
use crate::kdf::{derive_key, derived_key_of, DerivedKey};
use crate::location::Location;
use crate::vault::{read_error, read_error_of, Vault};
use iota_stronghold::ClientError;
use vstd::prelude::*;
use vstd::slice::slice_to_vec;
use vstd::utf8::encode_utf8;

verus! {

/// The character of the standard base64 alphabet for a six-bit value.
pub open spec fn base64_digit(v: u8) -> char {
    if v < 26 {
        (65u8 + v) as char
    } else if v < 52 {
        (97u8 + (v - 26) as u8) as char
    } else if v < 62 {
        (48u8 + (v - 52) as u8) as char
    } else if v == 62 {
        '+'
    } else {
        '/'
    }
}

/// The standard, padded base64 text of a byte string: each group of three
/// bytes gives four digits of six bits each; a last group of one or two
/// bytes gives two or three digits and `=` to fill four.
pub open spec fn base64_of(data: Seq<u8>) -> Seq<char>
    decreases data.len(),
{
    if data.len() == 0 {
        Seq::empty()
    } else if data.len() == 1 {
        seq![base64_digit(data[0] >> 2u8), base64_digit((data[0] & 3u8) << 4u8), '=', '=']
    } else if data.len() == 2 {
        seq![
            base64_digit(data[0] >> 2u8),
            base64_digit(((data[0] & 3u8) << 4u8) | (data[1] >> 4u8)),
            base64_digit((data[1] & 15u8) << 2u8),
            '=',
        ]
    } else {
        seq![
            base64_digit(data[0] >> 2u8),
            base64_digit(((data[0] & 3u8) << 4u8) | (data[1] >> 4u8)),
            base64_digit(((data[1] & 15u8) << 2u8) | (data[2] >> 6u8)),
            base64_digit(data[2] & 63u8),
        ] + base64_of(data.subrange(3, data.len() as int))
    }
}

/// Relies on `base64::encode`: the standard alphabet with padding, four
/// characters for every started group of three bytes.
#[verifier::external_body]
pub(crate) fn encode_base64(data: &Vec<u8>) -> (r: String)
    ensures
        r@ == base64_of(data@),
        r@.len() == 4 * ((data@.len() + 2) / 3),
{
    base64::encode(data)
}

/// Length of the base64 text of a public key.
pub const ENCODED_PUBLIC_KEY_LEN: usize = 44;

/// What a save hands to the commit: the public half of the new key and the
/// key that encrypts the snapshot.
pub struct StagedSave {
    pub public_key: Vec<u8>,
    pub snapshot_key: DerivedKey,
}

/// The outcome of a snapshot read or commit, with a stronghold error
/// reduced to its kind.
pub fn store_outcome(result: Result<(), ClientError>) -> (r: Result<(), StoreFault>)
    ensures
        r is Ok <==> result is Ok,
{
    match result {
        Ok(()) => Ok(()),
        Err(e) => Err(fault_of(&e)),
    }
}

/// The first half of a save: creates the namespace `client_id`, generates an
/// Ed25519 key at the fixed key slot, reads out its public half and writes
/// the namespace into the stronghold's snapshot state. It hands the commit
/// the key derived from `passphrase`. A namespace already held is rejected,
/// never overwritten.
pub fn stage_save(vault: &mut Vault, client_id: &str, passphrase: &str) -> (r: Result<StagedSave, VaultError>)
    requires
        old(vault).wf(),
    ensures
        final(vault).wf(),
        r == Err::<StagedSave, VaultError>(VaultError::AlreadyExists) <==> old(vault).view().contains(
            encode_utf8(client_id@),
        ),
        old(vault).view().contains(encode_utf8(client_id@)) ==> final(vault).view() == old(vault).view(),
        r is Ok ==> final(vault).view() == old(vault).view().push(encode_utf8(client_id@)),
        r is Ok ==> r->Ok_0.public_key@.len() == 32,
        r is Ok ==> r->Ok_0.snapshot_key@ == derived_key_of(passphrase@),
        r is Err ==> r == Err::<StagedSave, VaultError>(VaultError::AlreadyExists) || r == Err::<
            StagedSave,
            VaultError,
        >(VaultError::StoreWriteFailed) || r == Err::<StagedSave, VaultError>(VaultError::NotFound) || r
            == Err::<StagedSave, VaultError>(VaultError::TypeMismatch),
        final(vault).view() == old(vault).view() || final(vault).view() == old(vault).view().push(
            encode_utf8(client_id@),
        ),
{
    let id = slice_to_vec(client_id.as_bytes());
    match vault.create_namespace(&id) {
        Ok(()) => {},
        Err(e) => return Err(e),
    }
    assert(vault.view().contains(id@)) by {
        assert(vault.view().last() == id@);
    }
    let slot = Location::key_slot();
    match vault.generate_key(&id, KeyType::Ed25519, &slot) {
        Ok(()) => {},
        Err(e) => return Err(e),
    }
    let public_key = match vault.public_key(&id, KeyType::Ed25519, &slot) {
        Ok(pk) => pk,
        Err(e) => return Err(e),
    };
    match vault.write_namespace(&id) {
        Ok(()) => {},
        Err(e) => return Err(e),
    }
    Ok(StagedSave { public_key, snapshot_key: derive_key(passphrase) })
}

/// The second half of a save: the base64 text of the public key once the
/// commit has succeeded, `IOFailure` when it has not.
pub fn finish_save(public_key: &Vec<u8>, committed: Result<(), StoreFault>) -> (r: Result<String, VaultError>)
    ensures
        committed is Err ==> r == Err::<String, VaultError>(VaultError::IOFailure),
        committed is Ok ==> r is Ok && r->Ok_0@ == base64_of(public_key@),
        r is Ok ==> r->Ok_0@.len() == 4 * ((public_key@.len() + 2) / 3),
{
    match committed {
        Ok(()) => Ok(encode_base64(public_key)),
        Err(_) => Err(VaultError::IOFailure),
    }
}

/// The rest of a load, given the head of the snapshot file (if it could be
/// read) and the outcome of opening the snapshot: checks the file's format
/// tag, materializes namespace `client_id` and returns the base64 text of
/// the public half of the key at the fixed key slot. Every failure leaves
/// the vault as it was.
pub fn finish_load(
    vault: &mut Vault,
    client_id: &str,
    head: &Option<Vec<u8>>,
    opened: Result<(), StoreFault>,
) -> (r: Result<String, VaultError>)
    requires
        old(vault).wf(),
    ensures
        final(vault).wf(),
        header_verdict(head_view(head)) is Err ==> r == Err::<String, VaultError>(
            header_verdict(head_view(head))->Err_0,
        ),
        header_verdict(head_view(head)) is Ok && opened is Err ==> r == Err::<String, VaultError>(
            read_error_of(opened->Err_0),
        ),
        header_verdict(head_view(head)) is Ok && opened is Ok && old(vault).view().contains(
            encode_utf8(client_id@),
        ) ==> r == Err::<String, VaultError>(VaultError::AlreadyExists),
        r is Err ==> final(vault).view() == old(vault).view(),
        r is Ok ==> final(vault).view() == old(vault).view().push(encode_utf8(client_id@)),
        r is Ok ==> r->Ok_0@.len() == ENCODED_PUBLIC_KEY_LEN,
        r is Ok ==> exists|pk: Seq<u8>| pk.len() == 32 && r->Ok_0@ == #[trigger] base64_of(pk),
{
    match check_header(head) {
        Ok(()) => {},
        Err(e) => return Err(e),
    }
    match opened {
        Ok(()) => {},
        Err(f) => return Err(read_error(f)),
    }
    let id = slice_to_vec(client_id.as_bytes());
    match vault.materialize_key(&id, &Location::key_slot()) {
        Ok(pk) => Ok(encode_base64(&pk)),
        Err(e) => Err(e),
    }
}

} // verus!
