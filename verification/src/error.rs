//! What can go wrong while resolving a snapshot or weighing a key.

use vstd::prelude::*;

verus! {

#[derive(Clone, Copy, Debug, PartialEq, Eq, Structural)]
pub enum LedgerError {
    /// No object key in the bucket contains the requested hash.
    SnapshotNotFound,
    /// The archive was read, but no entry in it is the ledger.
    ArchiveEntryNotFound,
    /// The object key ends in neither `.json`, `.tar.gz` nor `.txt`.
    UnsupportedFormat,
    /// The cached bytes are not a list of accounts.
    MalformedSnapshot,
    /// The ledger has no account with the queried public key.
    AccountNotFound,
    /// The archive could not be read up to the entry that was looked for.
    ArchiveUnreadable,
}

} // verus!
