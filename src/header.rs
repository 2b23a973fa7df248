//! The tag at the head of a snapshot file: five magic bytes naming the
//! format and two bytes of format version.
use crate::error::VaultError;
use vstd::prelude::*;

verus! {

/// Number of bytes of a snapshot file that the tag takes.
pub const HEADER_LEN: usize = 7;

/// The head starts with the magic bytes `PARTI`.
pub open spec fn magic_ok(head: Seq<u8>) -> bool {
    head.len() >= 5 && head[0] == 0x50u8 && head[1] == 0x41u8 && head[2] == 0x52u8 && head[3] == 0x54u8
        && head[4] == 0x49u8
}

/// The version bytes after the magic are those of format version 3.0, the
/// one this vault reads.
pub open spec fn version_ok(head: Seq<u8>) -> bool {
    head.len() >= 7 && head[5] == 3u8 && head[6] == 0u8
}

/// What the head of a snapshot file says about opening it. No head (the
/// file could not be read) is a file system failure; a head without the
/// magic bytes, or too short to carry a version, is no readable snapshot;
/// another version is rejected as unsupported.
pub open spec fn header_verdict(head: Option<Seq<u8>>) -> Result<(), VaultError> {
    match head {
        None => Err(VaultError::IOFailure),
        Some(h) => if !magic_ok(h) || h.len() < 7 {
            Err(VaultError::DecryptionFailed)
        } else if !version_ok(h) {
            Err(VaultError::UnsupportedSnapshotVersion)
        } else {
            Ok(())
        },
    }
}

/// The bytes read from the head of a snapshot file, if it could be read.
pub open spec fn head_view(head: &Option<Vec<u8>>) -> Option<Seq<u8>> {
    match head {
        Some(h) => Some(h@),
        None => None,
    }
}

/// Checks the tag at the head of a snapshot file.
pub fn check_header(head: &Option<Vec<u8>>) -> (r: Result<(), VaultError>)
    ensures
        r == header_verdict(head_view(head)),
{
    match head {
        None => Err(VaultError::IOFailure),
        Some(h) => {
            if h.len() < HEADER_LEN || h[0] != 0x50u8 || h[1] != 0x41u8 || h[2] != 0x52u8 || h[3] != 0x54u8
                || h[4] != 0x49u8 {
                Err(VaultError::DecryptionFailed)
            } else if h[5] != 3u8 || h[6] != 0u8 {
                Err(VaultError::UnsupportedSnapshotVersion)
            } else {
                Ok(())
            }
        },
    }
}

} // verus!
