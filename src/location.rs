use vstd::prelude::*;
use vstd::slice::slice_to_vec;
use vstd::utf8::encode_utf8;

verus! {

/// Addresses one record inside a namespace: a vault segment and a record
/// segment, both opaque byte strings.
#[derive(Debug, Clone)]
pub struct Location {
    pub vault_path: Vec<u8>,
    pub record_path: Vec<u8>,
}

/// The two segments of a location, as byte sequences.
pub struct LocationView {
    pub vault: Seq<u8>,
    pub record: Seq<u8>,
}

impl View for Location {
    type V = LocationView;

    open spec fn view(&self) -> LocationView {
        LocationView { vault: self.vault_path@, record: self.record_path@ }
    }
}

/// Vault segment of the slot that holds a client's signing key.
pub const KEY_VAULT_SEGMENT: &'static str = "value_path/pluto";

/// Record segment of the slot that holds a client's signing key.
pub const KEY_RECORD_SEGMENT: &'static str = "record_path/pippo";

impl Location {
    /// A location from its two segments.
    pub fn generic(vault_path: &str, record_path: &str) -> (r: Location)
        ensures
            r@.vault == encode_utf8(vault_path@),
            r@.record == encode_utf8(record_path@),
    {
        Location {
            vault_path: slice_to_vec(vault_path.as_bytes()),
            record_path: slice_to_vec(record_path.as_bytes()),
        }
    }

    /// The fixed slot that the save and load flows keep a client's key in.
    pub fn key_slot() -> (r: Location)
        ensures
            r@.vault == encode_utf8(KEY_VAULT_SEGMENT@),
            r@.record == encode_utf8(KEY_RECORD_SEGMENT@),
    {
        Location::generic(KEY_VAULT_SEGMENT, KEY_RECORD_SEGMENT)
    }
}

} // verus!
