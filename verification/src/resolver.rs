//! Locating a snapshot among the objects of a bucket and turning the object
//! that was downloaded into the bytes of the snapshot file.

use crate::archive::{archive_listing, extract_ledger, extracted_ledger};
use crate::error::LedgerError;
use crate::text::{is_infix, is_suffix, str_contains, str_ends_with};
use vstd::prelude::*;
use vstd::string::StringExecFns;

verus! {

/// How the bytes of an object hold the snapshot.
#[derive(Clone, Copy, Debug, PartialEq, Eq, Structural)]
pub enum SnapshotFormat {
    /// The object is the snapshot file itself.
    Json,
    /// The object is a gzip-compressed tar archive that holds the snapshot.
    Archive,
}

/// The format that an object key's suffix stands for, if any.
pub open spec fn format_of(object_key: Seq<char>) -> Option<SnapshotFormat> {
    if is_suffix(".json"@, object_key) {
        Some(SnapshotFormat::Json)
    } else if is_suffix(".tar.gz"@, object_key) || is_suffix(".txt"@, object_key) {
        Some(SnapshotFormat::Archive)
    } else {
        None
    }
}

/// `i` is the first of `keys` that contains `hash`.
pub open spec fn is_first_match(keys: Seq<Seq<char>>, hash: Seq<char>, i: int) -> bool {
    &&& 0 <= i < keys.len()
    &&& is_infix(hash, keys[i])
    &&& forall|j: int| 0 <= j < i ==> !is_infix(hash, #[trigger] keys[j])
}

/// Some key among `keys` contains `hash`.
pub open spec fn has_match(keys: Seq<Seq<char>>, hash: Seq<char>) -> bool {
    exists|i: int| 0 <= i < keys.len() && is_infix(hash, #[trigger] keys[i])
}

/// The keys of a listing as the contracts see them.
pub open spec fn key_views(keys: Seq<String>) -> Seq<Seq<char>> {
    keys.map_values(|k: String| k@)
}

/// The bytes of the snapshot file that an object with the key `object_key`
/// and the contents `payload` holds.
pub open spec fn snapshot_of(object_key: Seq<char>, payload: Seq<u8>) -> Result<
    Seq<u8>,
    LedgerError,
> {
    match format_of(object_key) {
        Some(SnapshotFormat::Json) => Ok(payload),
        Some(SnapshotFormat::Archive) => extracted_ledger(archive_listing(payload), object_key),
        None => Err(LedgerError::UnsupportedFormat),
    }
}

/// The name of the cache file of a snapshot: the hash followed by `.json`.
pub fn cache_file_name(hash: &str) -> (name: String)
    ensures
        name@ == hash@ + ".json"@,
{
    String::from_str(hash).concat(".json")
}

/// Tells the format of an object from the suffix of its key. A key that ends
/// in neither `.json`, `.tar.gz` nor `.txt` is refused.
pub fn snapshot_format(object_key: &str) -> (format: Result<SnapshotFormat, LedgerError>)
    ensures
        format == match format_of(object_key@) {
            Some(f) => Ok::<SnapshotFormat, LedgerError>(f),
            None => Err(LedgerError::UnsupportedFormat),
        },
{
    if str_ends_with(object_key, ".json") {
        Ok(SnapshotFormat::Json)
    } else if str_ends_with(object_key, ".tar.gz") || str_ends_with(object_key, ".txt") {
        Ok(SnapshotFormat::Archive)
    } else {
        Err(LedgerError::UnsupportedFormat)
    }
}

/// Picks the object of a snapshot: the first key of the listing that contains
/// the hash. Without such a key the snapshot is not found.
pub fn select_object(keys: &Vec<String>, hash: &str) -> (found: Result<usize, LedgerError>)
    ensures
        match found {
            Ok(i) => is_first_match(key_views(keys@), hash@, i as int),
            Err(e) => e == LedgerError::SnapshotNotFound && !has_match(key_views(keys@), hash@),
        },
{
    let mut i: usize = 0;
    while i < keys.len()
        invariant
            i <= keys.len(),
            forall|j: int| 0 <= j < i ==> !is_infix(hash@, #[trigger] key_views(keys@)[j]),
        decreases keys.len() - i,
    {
        if str_contains(keys[i].as_str(), hash) {
            return Ok(i);
        }
        i += 1;
    }
    Err(LedgerError::SnapshotNotFound)
}

/// Turns a downloaded object into the bytes of the snapshot file: a `.json`
/// object as it is, a `.tar.gz` or `.txt` object by taking the ledger out of
/// the archive. Any other suffix is refused.
pub fn snapshot_bytes(object_key: &str, payload: Vec<u8>) -> (bytes: Result<Vec<u8>, LedgerError>)
    ensures
        match bytes {
            Ok(b) => snapshot_of(object_key@, payload@) == Ok::<Seq<u8>, LedgerError>(b@),
            Err(e) => snapshot_of(object_key@, payload@) == Err::<Seq<u8>, LedgerError>(e),
        },
{
    match snapshot_format(object_key) {
        Ok(SnapshotFormat::Json) => Ok(payload),
        Ok(SnapshotFormat::Archive) => extract_ledger(payload.as_slice(), object_key),
        Err(e) => Err(e),
    }
}

} // verus!
