//! The archive verifier: confirms that a byte buffer holds a well-formed
//! gzip-compressed tar archive by fully enumerating its entries and
//! resolving every entry's path, without extracting any content.

use vstd::prelude::*;

use crate::error::Error;

verus! {

/// Whether `bytes` form a structurally well-formed gzip-compressed tar
/// archive: the stream decompresses, every entry can be enumerated to the
/// end of the stream, and every entry's path field resolves. A function
/// of the bytes alone; nothing is said about file contents.
pub uninterp spec fn tar_gz_well_formed(bytes: Seq<u8>) -> bool;

/// Relies on flate2's `GzDecoder` and tar's `Archive`: opening the buffer
/// as a compressed tar container, enumerating every entry and resolving
/// each entry's path succeeds exactly on a structurally well-formed
/// archive, reads the stream to its end, and never writes; the `Err`
/// payload is the diagnostic reason.
#[verifier::external_body]
fn tar_gz_entries_check(bytes: &[u8]) -> (r: Result<(), String>)
    ensures
        r is Ok <==> tar_gz_well_formed(bytes@),
{
    let mut archive = tar::Archive::new(flate2::read::GzDecoder::new(bytes));
    let entries = match archive.entries() {
        Ok(entries) => entries,
        Err(e) => return Err(format!("failed to list tar entries: {}", e)),
    };
    for entry in entries {
        let entry = match entry {
            Ok(entry) => entry,
            Err(e) => return Err(format!("bad entry: {}", e)),
        };
        if let Err(e) = entry.path() {
            return Err(format!("bad entry: {}", e));
        }
    }
    Ok(())
}

/// Test that the given bytes are a proper archive.
///
/// Succeeds exactly on a well-formed compressed tar archive; a
/// decompression error, an entry-listing error or an unresolvable entry
/// path is a failure carrying a human-readable reason. Read-only: the
/// bytes are only inspected.
pub fn verify_archive(bytes: &[u8]) -> (r: Result<(), Error>)
    ensures
        r is Ok <==> tar_gz_well_formed(bytes@),
        r matches Err(e) ==> e is Custom,
{
    match tar_gz_entries_check(bytes) {
        Ok(()) => Ok(()),
        Err(reason) => Err(Error::Custom(reason)),
    }
}

} // verus!
