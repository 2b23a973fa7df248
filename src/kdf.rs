use crate::backend::key_provider;
use crypto::hashes::Digest;
use iota_stronghold::KeyProvider;
use vstd::prelude::*;
use vstd::utf8::encode_utf8;

verus! {

/// The Blake2b-256 digest of a byte string.
pub uninterp spec fn blake2b256_of(data: Seq<u8>) -> Seq<u8>;

/// Length in bytes of a derived snapshot key.
pub const DERIVED_KEY_LEN: usize = 32;

/// Relies on `crypto::hashes::blake2b::Blake2b256`: a 32-byte digest that
/// depends on the input bytes alone.
#[verifier::external_body]
pub(crate) fn hash_blake2b(input: &[u8]) -> (r: Vec<u8>)
    ensures
        r@ == blake2b256_of(input@),
        r@.len() == DERIVED_KEY_LEN,
{
    let mut hasher = crypto::hashes::blake2b::Blake2b256::new();
    hasher.update(input);
    hasher.finalize().to_vec()
}

/// The key that a passphrase derives: the digest of its UTF-8 bytes.
pub open spec fn derived_key_of(passphrase: Seq<char>) -> Seq<u8> {
    blake2b256_of(encode_utf8(passphrase))
}

/// A fixed-length symmetric key computed from a passphrase.
pub struct DerivedKey {
    bytes: Vec<u8>,
}

impl DerivedKey {
    /// Every derived key is `DERIVED_KEY_LEN` bytes long.
    #[verifier::type_invariant]
    spec fn inv(&self) -> bool {
        self.bytes@.len() == DERIVED_KEY_LEN
    }

    pub closed spec fn view(&self) -> Seq<u8> {
        self.bytes@
    }

    /// The key material.
    pub fn as_bytes(&self) -> (r: &Vec<u8>)
        ensures
            r@ == self.view(),
            r@.len() == DERIVED_KEY_LEN,
    {
        proof { use_type_invariant(self); }
        &self.bytes
    }

    /// The key provider that holds this key for the stronghold's snapshot
    /// encryption.
    pub fn to_provider(&self) -> KeyProvider {
        proof { use_type_invariant(self); }
        key_provider(&self.bytes).unwrap()
    }
}

/// Turns a passphrase into the key that encrypts a snapshot. Total and
/// deterministic: the same passphrase always gives the same key. The
/// snapshot format strengthens this key further: each snapshot is sealed
/// under an scrypt derivation of it with a fresh random salt that the file
/// carries in clear.
pub fn derive_key(passphrase: &str) -> (r: DerivedKey)
    ensures
        r.view() == derived_key_of(passphrase@),
        r.view().len() == DERIVED_KEY_LEN,
{
    DerivedKey { bytes: hash_blake2b(passphrase.as_bytes()) }
}

/// Deriving is a function of the passphrase: equal passphrases give equal
/// keys.
pub proof fn derive_is_deterministic(p1: Seq<char>, p2: Seq<char>)
    ensures
        p1 == p2 ==> derived_key_of(p1) == derived_key_of(p2),
{
}

} // verus!
