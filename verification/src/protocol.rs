//! The resolution of a snapshot as a sequence of steps.
//!
//! Resolving a hash needs work that this library does not do: looking into
//! the cache directory, listing a bucket, fetching an object, writing and
//! decoding a file. The caller does that work; what is to be done next, and
//! with which values, is decided here. A resolution starts with `begin`; the
//! caller performs the action it is given and reports the outcome to `step`,
//! until the action is `Finish` or `Fail`.

use crate::error::LedgerError;
use crate::ledger::{AccountView, Ledger};
use crate::resolver::{
    cache_file_name, has_match, is_first_match, key_views, select_object, snapshot_bytes,
    snapshot_of,
};
use vstd::prelude::*;

verus! {

/// What a resolution is waiting for.
#[derive(Clone, Debug, PartialEq, Eq)]
pub enum ResolverState {
    /// Whether the cache holds the snapshot.
    Probing,
    /// The keys of the bucket.
    Listing,
    /// The contents of the object that was picked.
    Downloading { object_key: String },
    /// The end of the write to the cache.
    Storing,
    /// The accounts decoded from the cache file.
    Loading,
    /// Nothing: the resolution has ended.
    Finished,
}

/// The outcome of an action, as the caller reports it.
#[derive(Clone, Debug, PartialEq, Eq)]
pub enum ResolverEvent {
    CacheProbed { exists: bool },
    ObjectsListed { keys: Vec<String> },
    ObjectFetched { payload: Vec<u8> },
    CacheWritten,
    /// `None` where the cache file is not a list of accounts.
    CacheDecoded { ledger: Option<Ledger> },
}

/// What the caller is to do next.
#[derive(Clone, Debug, PartialEq, Eq)]
pub enum ResolverAction {
    /// Find out whether the cache directory holds `file_name`.
    ProbeCache { file_name: String },
    /// List the keys of every object in the bucket.
    ListObjects,
    /// Fetch the whole object stored under `object_key`.
    FetchObject { object_key: String },
    /// Write `bytes` to `file_name` in the cache directory.
    WriteCache { file_name: String, bytes: Vec<u8> },
    /// Read `file_name` from the cache directory and decode its accounts.
    DecodeCache { file_name: String },
    /// Hand out the ledger: the resolution succeeded.
    Finish { ledger: Ledger },
    /// Report the error: the resolution failed.
    Fail { error: LedgerError },
    /// Nothing: the event was not waited for.
    Ignore,
}

/// A state as the contracts see it.
pub enum StateView {
    Probing,
    Listing,
    Downloading { object_key: Seq<char> },
    Storing,
    Loading,
    Finished,
}

/// An event as the contracts see it.
pub enum EventView {
    CacheProbed { exists: bool },
    ObjectsListed { keys: Seq<Seq<char>> },
    ObjectFetched { payload: Seq<u8> },
    CacheWritten,
    CacheDecoded { accounts: Option<Seq<AccountView>> },
}

/// An action as the contracts see it.
pub enum ActionView {
    ProbeCache { file_name: Seq<char> },
    ListObjects,
    FetchObject { object_key: Seq<char> },
    WriteCache { file_name: Seq<char>, bytes: Seq<u8> },
    DecodeCache { file_name: Seq<char> },
    Finish { accounts: Seq<AccountView> },
    Fail { error: LedgerError },
    Ignore,
}

impl View for ResolverState {
    type V = StateView;

    open spec fn view(&self) -> StateView {
        match *self {
            ResolverState::Probing => StateView::Probing,
            ResolverState::Listing => StateView::Listing,
            ResolverState::Downloading { object_key } => StateView::Downloading {
                object_key: object_key@,
            },
            ResolverState::Storing => StateView::Storing,
            ResolverState::Loading => StateView::Loading,
            ResolverState::Finished => StateView::Finished,
        }
    }
}

impl View for ResolverEvent {
    type V = EventView;

    open spec fn view(&self) -> EventView {
        match *self {
            ResolverEvent::CacheProbed { exists } => EventView::CacheProbed { exists },
            ResolverEvent::ObjectsListed { keys } => EventView::ObjectsListed {
                keys: key_views(keys@),
            },
            ResolverEvent::ObjectFetched { payload } => EventView::ObjectFetched {
                payload: payload@,
            },
            ResolverEvent::CacheWritten => EventView::CacheWritten,
            ResolverEvent::CacheDecoded { ledger } => EventView::CacheDecoded {
                accounts: match ledger {
                    Some(l) => Some(l@),
                    None => None,
                },
            },
        }
    }
}

impl View for ResolverAction {
    type V = ActionView;

    open spec fn view(&self) -> ActionView {
        match *self {
            ResolverAction::ProbeCache { file_name } => ActionView::ProbeCache {
                file_name: file_name@,
            },
            ResolverAction::ListObjects => ActionView::ListObjects,
            ResolverAction::FetchObject { object_key } => ActionView::FetchObject {
                object_key: object_key@,
            },
            ResolverAction::WriteCache { file_name, bytes } => ActionView::WriteCache {
                file_name: file_name@,
                bytes: bytes@,
            },
            ResolverAction::DecodeCache { file_name } => ActionView::DecodeCache {
                file_name: file_name@,
            },
            ResolverAction::Finish { ledger } => ActionView::Finish { accounts: ledger@ },
            ResolverAction::Fail { error } => ActionView::Fail { error },
            ResolverAction::Ignore => ActionView::Ignore,
        }
    }
}

/// The name of the cache file of `hash`.
pub open spec fn cache_name(hash: Seq<char>) -> Seq<char> {
    hash + ".json"@
}

/// The first of `keys` that contains `hash`.
pub open spec fn first_match(keys: Seq<Seq<char>>, hash: Seq<char>) -> Seq<char> {
    keys[choose|i: int| is_first_match(keys, hash, i)]
}

/// How a resolution of `hash` begins: by looking for the cache file.
pub open spec fn first_step(hash: Seq<char>) -> (StateView, ActionView) {
    (StateView::Probing, ActionView::ProbeCache { file_name: cache_name(hash) })
}

/// How a resolution of `hash` goes on from `state` when `event` is reported.
///
/// A cache hit leads straight to decoding; a miss to the listing, the fetch of
/// the first object whose key contains the hash, and the write of the
/// snapshot's bytes, after which the cache file is decoded as on a hit. An
/// event that the state does not wait for changes nothing.
pub open spec fn next_step(hash: Seq<char>, state: StateView, event: EventView) -> (
    StateView,
    ActionView,
) {
    match (state, event) {
        (StateView::Probing, EventView::CacheProbed { exists }) => if exists {
            (StateView::Loading, ActionView::DecodeCache { file_name: cache_name(hash) })
        } else {
            (StateView::Listing, ActionView::ListObjects)
        },
        (StateView::Listing, EventView::ObjectsListed { keys }) => if has_match(keys, hash) {
            let object_key = first_match(keys, hash);
            (StateView::Downloading { object_key }, ActionView::FetchObject { object_key })
        } else {
            (StateView::Finished, ActionView::Fail { error: LedgerError::SnapshotNotFound })
        },
        (StateView::Downloading { object_key }, EventView::ObjectFetched { payload }) => {
            match snapshot_of(object_key, payload) {
                Ok(bytes) => (
                    StateView::Storing,
                    ActionView::WriteCache { file_name: cache_name(hash), bytes },
                ),
                Err(error) => (StateView::Finished, ActionView::Fail { error }),
            }
        },
        (StateView::Storing, EventView::CacheWritten) => (
            StateView::Loading,
            ActionView::DecodeCache { file_name: cache_name(hash) },
        ),
        (StateView::Loading, EventView::CacheDecoded { accounts }) => match accounts {
            Some(accounts) => (StateView::Finished, ActionView::Finish { accounts }),
            None => (
                StateView::Finished,
                ActionView::Fail { error: LedgerError::MalformedSnapshot },
            ),
        },
        _ => (state, ActionView::Ignore),
    }
}

/// Begins the resolution of `hash`.
pub fn begin(hash: &str) -> (out: (ResolverState, ResolverAction))
    ensures
        (out.0@, out.1@) == first_step(hash@),
{
    (ResolverState::Probing, ResolverAction::ProbeCache { file_name: cache_file_name(hash) })
}

/// Takes the resolution of `hash` one step further.
pub fn step(hash: &str, state: ResolverState, event: ResolverEvent) -> (out: (
    ResolverState,
    ResolverAction,
))
    ensures
        (out.0@, out.1@) == next_step(hash@, state@, event@),
{
    match (state, event) {
        (ResolverState::Probing, ResolverEvent::CacheProbed { exists }) => {
            if exists {
                (
                    ResolverState::Loading,
                    ResolverAction::DecodeCache { file_name: cache_file_name(hash) },
                )
            } else {
                (ResolverState::Listing, ResolverAction::ListObjects)
            }
        },
        (ResolverState::Listing, ResolverEvent::ObjectsListed { keys }) => {
            match select_object(&keys, hash) {
                Ok(i) => {
                    proof {
                        lemma_first_match(key_views(keys@), hash@, i as int);
                    }
                    let object_key = keys[i].clone();
                    (
                        ResolverState::Downloading { object_key: object_key.clone() },
                        ResolverAction::FetchObject { object_key },
                    )
                },
                Err(error) => (ResolverState::Finished, ResolverAction::Fail { error }),
            }
        },
        (ResolverState::Downloading { object_key }, ResolverEvent::ObjectFetched { payload }) => {
            match snapshot_bytes(object_key.as_str(), payload) {
                Ok(bytes) => (
                    ResolverState::Storing,
                    ResolverAction::WriteCache { file_name: cache_file_name(hash), bytes },
                ),
                Err(error) => (ResolverState::Finished, ResolverAction::Fail { error }),
            }
        },
        (ResolverState::Storing, ResolverEvent::CacheWritten) => (
            ResolverState::Loading,
            ResolverAction::DecodeCache { file_name: cache_file_name(hash) },
        ),
        (ResolverState::Loading, ResolverEvent::CacheDecoded { ledger }) => match ledger {
            Some(ledger) => (ResolverState::Finished, ResolverAction::Finish { ledger }),
            None => (
                ResolverState::Finished,
                ResolverAction::Fail { error: LedgerError::MalformedSnapshot },
            ),
        },
        (state, _) => (state, ResolverAction::Ignore),
    }
}

/// The first key that contains the hash is the one that `first_match` names.
pub proof fn lemma_first_match(keys: Seq<Seq<char>>, hash: Seq<char>, i: int)
    requires
        is_first_match(keys, hash, i),
    ensures
        has_match(keys, hash),
        first_match(keys, hash) == keys[i],
{
    let j = choose|j: int| is_first_match(keys, hash, j);
    if j < i {
        assert(!crate::text::is_infix(hash, keys[j]));
    } else if i < j {
        assert(!crate::text::is_infix(hash, keys[i]));
    }
}

} // verus!
