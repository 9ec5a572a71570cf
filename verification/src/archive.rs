//! Taking the ledger file out of a gzip-compressed tar archive.
//!
//! `flate2` and `tar` read the archive; which entry is the ledger is decided
//! here.

use crate::error::LedgerError;
use crate::text::{is_infix, is_suffix, str_contains, str_ends_with};
use flate2::read::GzDecoder;
use std::io::Read;
use tar::Archive;
use vstd::prelude::*;

verus! {

/// One file of an archive: its path and its contents.
#[derive(Clone, Debug, PartialEq, Eq)]
pub struct ArchiveEntry {
    pub path: String,
    pub data: Vec<u8>,
}

/// What reading a gzip-compressed tar archive yields: its entries in stored
/// order, each with path and contents. Where reading fails, the listing ends
/// in `None`.
pub uninterp spec fn archive_listing(payload: Seq<u8>) -> Seq<Option<(Seq<char>, Seq<u8>)>>;

/// An entry as the contracts see it.
pub open spec fn entry_view(entry: Option<ArchiveEntry>) -> Option<(Seq<char>, Seq<u8>)> {
    match entry {
        Some(e) => Some((e.path@, e.data@)),
        None => None,
    }
}

/// A listing as the contracts see it.
pub open spec fn listing_view(listing: Seq<Option<ArchiveEntry>>) -> Seq<
    Option<(Seq<char>, Seq<u8>)>,
> {
    listing.map_values(|e: Option<ArchiveEntry>| entry_view(e))
}

/// An entry is taken for the ledger where its path occurs in the object key
/// or ends in `.json`.
pub open spec fn entry_matches(path: Seq<char>, object_key: Seq<char>) -> bool {
    is_infix(path, object_key) || is_suffix(".json"@, path)
}

/// The contents of the first entry of `listing` that is taken for the ledger.
/// A listing without one has no ledger; one that breaks off before it is
/// unreadable.
pub open spec fn extracted_ledger(
    listing: Seq<Option<(Seq<char>, Seq<u8>)>>,
    object_key: Seq<char>,
) -> Result<Seq<u8>, LedgerError>
    decreases listing.len(),
{
    if listing.len() == 0 {
        Err(LedgerError::ArchiveEntryNotFound)
    } else {
        match listing[0] {
            None => Err(LedgerError::ArchiveUnreadable),
            Some((path, data)) => if entry_matches(path, object_key) {
                Ok(data)
            } else {
                extracted_ledger(listing.drop_first(), object_key)
            },
        }
    }
}

/// Reads a gzip-compressed tar archive with `flate2::read::GzDecoder` and
/// `tar::Archive::entries`, and hands out each entry's `path` and what
/// `read_to_end` gives for it. An error of any of these calls, and a path that
/// is not UTF-8, becomes `None`; `tar` yields nothing after an error. Nothing
/// is claimed of the outcome but that it depends on the bytes alone.
#[verifier::external_body]
fn read_archive(payload: &[u8]) -> (listing: Vec<Option<ArchiveEntry>>)
    ensures
        listing_view(listing@) == archive_listing(payload@),
{
    let mut listing = Vec::new();
    let mut archive = Archive::new(GzDecoder::new(payload));
    let Ok(entries) = archive.entries() else { return vec![None] };
    for entry in entries {
        listing.push(entry.ok().and_then(|mut e| {
            let path = e.path().ok()?.to_str()?.to_owned();
            let mut data = Vec::new();
            e.read_to_end(&mut data).ok()?;
            Some(ArchiveEntry { path, data })
        }));
    }
    listing
}

/// Picks the ledger out of the listing of an archive: the contents of the
/// first entry whose path occurs in the object key or ends in `.json`.
pub fn ledger_from_listing(listing: Vec<Option<ArchiveEntry>>, object_key: &str) -> (out: Result<
    Vec<u8>,
    LedgerError,
>)
    ensures
        match out {
            Ok(b) => extracted_ledger(listing_view(listing@), object_key@) == Ok::<
                Seq<u8>,
                LedgerError,
            >(b@),
            Err(e) => extracted_ledger(listing_view(listing@), object_key@) == Err::<
                Seq<u8>,
                LedgerError,
            >(e),
        },
{
    let mut entries = listing;
    let ghost all = listing_view(listing@);
    let mut i: usize = 0;
    proof {
        assert(all.skip(0) =~= all);
    }
    while i < entries.len()
        invariant
            i <= entries.len(),
            entries@ == listing@,
            all == listing_view(listing@),
            extracted_ledger(all, object_key@) == extracted_ledger(all.skip(i as int), object_key@),
        decreases entries.len() - i,
    {
        proof {
            assert(all.skip(i as int).drop_first() =~= all.skip(i + 1));
            assert(all.skip(i as int)[0] == entry_view(entries@[i as int]));
        }
        let stop = match &entries[i] {
            None => true,
            Some(e) => str_contains(object_key, e.path.as_str()) || str_ends_with(
                e.path.as_str(),
                ".json",
            ),
        };
        if stop {
            return match entries.swap_remove(i) {
                Some(e) => Ok(e.data),
                None => Err(LedgerError::ArchiveUnreadable),
            };
        }
        i += 1;
    }
    Err(LedgerError::ArchiveEntryNotFound)
}

/// Takes the ledger out of a gzip-compressed tar archive that was downloaded
/// under `object_key`.
pub fn extract_ledger(payload: &[u8], object_key: &str) -> (out: Result<Vec<u8>, LedgerError>)
    ensures
        match out {
            Ok(b) => extracted_ledger(archive_listing(payload@), object_key@) == Ok::<
                Seq<u8>,
                LedgerError,
            >(b@),
            Err(e) => extracted_ledger(archive_listing(payload@), object_key@) == Err::<
                Seq<u8>,
                LedgerError,
            >(e),
        },
{
    ledger_from_listing(read_archive(payload), object_key)
}

} // verus!
