//! What holds of the engine and of the resolution protocol on every input.

use crate::amount::{amount_sum, balance_of, zero_balance, Amount};
use crate::archive::{archive_listing, entry_matches, extracted_ledger};
use crate::error::LedgerError;
use crate::ledger::{
    balance_total, delegator_test, delegators, effective_delegate, first_account, has_account,
    stake_weight, AccountView, ProposalVersion,
};
use crate::protocol::{cache_name, next_step, ActionView, EventView, StateView};
use crate::resolver::{format_of, snapshot_of, SnapshotFormat};
use crate::text::is_suffix;
use vstd::prelude::*;

verus! {

/// An account that names no delegate, or names itself, counts for its own
/// key.
pub proof fn law_self_delegation(account: AccountView)
    requires
        account.delegate is None || account.delegate == Some(account.pk),
    ensures
        effective_delegate(account) == account.pk,
{
}

/// Under V1 an account whose delegate is another key weighs exactly zero at
/// the ledger balance scale.
pub proof fn law_v1_delegated_away(
    accounts: Seq<AccountView>,
    voted: Set<Seq<char>>,
    pk: Seq<char>,
    delegate: Seq<char>,
)
    requires
        has_account(accounts, pk),
        first_account(accounts, pk).delegate == Some(delegate),
        delegate != pk,
    ensures
        stake_weight(accounts, voted, ProposalVersion::V1, pk) == Some(
            Ok::<_, LedgerError>(zero_balance()),
        ),
{
}

/// The accounts that `test` lets through, where it lets none through, are
/// none.
proof fn lemma_filter_none(accounts: Seq<AccountView>, test: spec_fn(AccountView) -> bool)
    requires
        forall|i: int| 0 <= i < accounts.len() ==> !test(#[trigger] accounts[i]),
    ensures
        accounts.filter(test).len() == 0,
    decreases accounts.len(),
{
    reveal(Seq::filter);
    if accounts.len() > 0 {
        let front = accounts.drop_last();
        assert forall|i: int| 0 <= i < front.len() implies !test(#[trigger] front[i]) by {
            assert(front[i] == accounts[i]);
        }
        lemma_filter_none(front, test);
        assert(!test(accounts[accounts.len() - 1]));
    }
}

/// Under V1 a self-delegating account to which no other account delegates
/// weighs its own balance.
pub proof fn law_v1_no_delegators(accounts: Seq<AccountView>, voted: Set<Seq<char>>, pk: Seq<char>)
    requires
        has_account(accounts, pk),
        effective_delegate(first_account(accounts, pk)) == pk,
        forall|i: int|
            0 <= i < accounts.len() ==> !(effective_delegate(#[trigger] accounts[i]) == pk
                && accounts[i].pk != pk),
    ensures
        stake_weight(accounts, voted, ProposalVersion::V1, pk) == Some(
            Ok::<_, LedgerError>(balance_of(first_account(accounts, pk).balance)),
        ),
{
    lemma_filter_none(accounts, delegator_test(pk, voted, ProposalVersion::V1));
}

/// Under V1 the delegators of a key are the other accounts whose effective
/// delegate it is, whoever has voted; a self-delegating account that has some
/// weighs their balances, added up in ledger order, plus its own.
pub proof fn law_v1_with_delegators(
    accounts: Seq<AccountView>,
    voted: Set<Seq<char>>,
    pk: Seq<char>,
)
    requires
        has_account(accounts, pk),
        effective_delegate(first_account(accounts, pk)) == pk,
        delegators(accounts, pk, voted, ProposalVersion::V1).len() > 0,
    ensures
        delegators(accounts, pk, voted, ProposalVersion::V1) == accounts.filter(
            |a: AccountView| effective_delegate(a) == pk && a.pk != pk,
        ),
        stake_weight(accounts, voted, ProposalVersion::V1, pk) == match balance_total(
            delegators(accounts, pk, voted, ProposalVersion::V1),
        ) {
            Some(total) => match amount_sum(
                total,
                balance_of(first_account(accounts, pk).balance),
            ) {
                Some(weight) => Some(Ok::<_, LedgerError>(weight)),
                None => None,
            },
            None => None,
        },
{
    let plain = |a: AccountView| effective_delegate(a) == pk && a.pk != pk;
    assert(delegator_test(pk, voted, ProposalVersion::V1) =~= plain);
}

/// Under V2 the delegators of a key are the other accounts whose effective
/// delegate it is and that have not voted. The account's own balance always
/// counts: it is the weight where no delegator is left, and is added to the
/// delegators' balances where some are.
pub proof fn law_v2_excludes_voters(
    accounts: Seq<AccountView>,
    voted: Set<Seq<char>>,
    pk: Seq<char>,
)
    requires
        has_account(accounts, pk),
    ensures
        delegators(accounts, pk, voted, ProposalVersion::V2) == accounts.filter(
            |a: AccountView| effective_delegate(a) == pk && a.pk != pk && !voted.contains(a.pk),
        ),
        stake_weight(accounts, voted, ProposalVersion::V2, pk) == if delegators(
            accounts,
            pk,
            voted,
            ProposalVersion::V2,
        ).len() == 0 {
            Some(Ok::<_, LedgerError>(balance_of(first_account(accounts, pk).balance)))
        } else {
            match balance_total(delegators(accounts, pk, voted, ProposalVersion::V2)) {
                Some(total) => match amount_sum(
                    total,
                    balance_of(first_account(accounts, pk).balance),
                ) {
                    Some(weight) => Some(Ok::<_, LedgerError>(weight)),
                    None => None,
                },
                None => None,
            }
        },
{
    let plain = |a: AccountView|
        effective_delegate(a) == pk && a.pk != pk && !voted.contains(a.pk);
    assert(delegator_test(pk, voted, ProposalVersion::V2) =~= plain);
}

/// A key that no account of the ledger has is not found, under either
/// version.
pub proof fn law_unknown_key(
    accounts: Seq<AccountView>,
    voted: Set<Seq<char>>,
    version: ProposalVersion,
    pk: Seq<char>,
)
    requires
        forall|i: int| 0 <= i < accounts.len() ==> (#[trigger] accounts[i]).pk != pk,
    ensures
        stake_weight(accounts, voted, version, pk) == Some(
            Err::<Amount, LedgerError>(LedgerError::AccountNotFound),
        ),
{
}

/// The actions that a resolution asks for while `events` are reported, one
/// after the other, from `state` on.
pub open spec fn actions_from(hash: Seq<char>, state: StateView, events: Seq<EventView>) -> Seq<
    ActionView,
>
    decreases events.len(),
{
    if events.len() == 0 {
        Seq::empty()
    } else {
        let (after, action) = next_step(hash, state, events[0]);
        seq![action] + actions_from(hash, after, events.drop_first())
    }
}

/// A resolution that has ended asks for nothing more, whatever is reported.
pub proof fn law_finished_stays(hash: Seq<char>, events: Seq<EventView>, i: int)
    requires
        0 <= i < events.len(),
    ensures
        actions_from(hash, StateView::Finished, events)[i] == ActionView::Ignore,
    decreases events.len(),
{
    let rest = events.drop_first();
    lemma_actions_len(hash, StateView::Finished, rest);
    if i > 0 {
        law_finished_stays(hash, rest, i - 1);
    }
}

/// How far a resolution has come.
pub open spec fn progress(state: StateView) -> int {
    match state {
        StateView::Probing => 0,
        StateView::Listing => 1,
        StateView::Downloading { .. } => 2,
        StateView::Storing => 3,
        StateView::Loading => 4,
        StateView::Finished => 5,
    }
}

/// Whether an action reaches out of the process: to the bucket, or to write
/// the cache.
pub open spec fn reaches_out(action: ActionView) -> bool {
    action is ListObjects || action is FetchObject || action is WriteCache
}

/// A resolution never goes back, and each action that reaches out takes it
/// one state further: the listing from the probe, the fetch from the listing,
/// the write from the fetch.
pub proof fn law_step_goes_forward(hash: Seq<char>, state: StateView, event: EventView)
    ensures
        progress(state) <= progress(next_step(hash, state, event).0),
        next_step(hash, state, event).1 is ListObjects ==> progress(state) == 0,
        next_step(hash, state, event).1 is FetchObject ==> progress(state) == 1,
        next_step(hash, state, event).1 is WriteCache ==> progress(state) == 2,
        reaches_out(next_step(hash, state, event).1) ==> progress(
            next_step(hash, state, event).0,
        ) == progress(state) + 1,
{
}

/// Every event is answered by one action.
pub proof fn lemma_actions_len(hash: Seq<char>, state: StateView, events: Seq<EventView>)
    ensures
        actions_from(hash, state, events).len() == events.len(),
    decreases events.len(),
{
    if events.len() > 0 {
        lemma_actions_len(hash, next_step(hash, state, events[0]).0, events.drop_first());
    }
}

/// Whatever is reported from `state` on, the bucket is listed only if the
/// resolution is still probing, an object fetched only if it has not fetched
/// yet, and the cache written only if it has not written yet.
proof fn lemma_actions_by_progress(
    hash: Seq<char>,
    state: StateView,
    events: Seq<EventView>,
    j: int,
)
    requires
        0 <= j < events.len(),
    ensures
        actions_from(hash, state, events)[j] is ListObjects ==> progress(state) <= 0,
        actions_from(hash, state, events)[j] is FetchObject ==> progress(state) <= 1,
        actions_from(hash, state, events)[j] is WriteCache ==> progress(state) <= 2,
    decreases events.len(),
{
    let after = next_step(hash, state, events[0]).0;
    let rest = events.drop_first();
    law_step_goes_forward(hash, state, events[0]);
    lemma_actions_len(hash, after, rest);
    if j > 0 {
        lemma_actions_by_progress(hash, after, rest, j - 1);
    }
}

/// Whatever is reported, and in whatever order, a resolution lists the bucket
/// at most once, fetches at most one object and writes the cache at most
/// once.
pub proof fn law_at_most_once(
    hash: Seq<char>,
    state: StateView,
    events: Seq<EventView>,
    i: int,
    j: int,
)
    requires
        0 <= i < j < events.len(),
    ensures
        !(actions_from(hash, state, events)[i] is ListObjects && actions_from(
            hash,
            state,
            events,
        )[j] is ListObjects),
        !(actions_from(hash, state, events)[i] is FetchObject && actions_from(
            hash,
            state,
            events,
        )[j] is FetchObject),
        !(actions_from(hash, state, events)[i] is WriteCache && actions_from(
            hash,
            state,
            events,
        )[j] is WriteCache),
    decreases events.len(),
{
    let after = next_step(hash, state, events[0]).0;
    let rest = events.drop_first();
    law_step_goes_forward(hash, state, events[0]);
    lemma_actions_len(hash, after, rest);
    lemma_actions_by_progress(hash, after, rest, j - 1);
    if i > 0 {
        lemma_actions_by_progress(hash, after, rest, i - 1);
        law_at_most_once(hash, after, rest, i - 1, j - 1);
    }
}

/// Where the cache holds the snapshot, the cache file is decoded at once:
/// nothing is listed, fetched or written. It is the file that a resolution
/// decodes after it has written the snapshot, and the ledger that is handed
/// out holds the decoded accounts and nothing else. So two resolutions of one
/// hash give the same accounts as long as the file decodes to the same.
pub proof fn law_cache_hit(hash: Seq<char>, accounts: Seq<AccountView>)
    ensures
        next_step(hash, StateView::Probing, EventView::CacheProbed { exists: true }) == (
            StateView::Loading,
            ActionView::DecodeCache { file_name: cache_name(hash) },
        ),
        next_step(hash, StateView::Storing, EventView::CacheWritten) == next_step(
            hash,
            StateView::Probing,
            EventView::CacheProbed { exists: true },
        ),
        next_step(hash, StateView::Loading, EventView::CacheDecoded { accounts: Some(accounts) })
            == (StateView::Finished, ActionView::Finish { accounts }),
{
}

/// An object whose key ends in `.json` is written to the cache as it is.
pub proof fn law_json_verbatim(hash: Seq<char>, object_key: Seq<char>, payload: Seq<u8>)
    requires
        is_suffix(".json"@, object_key),
    ensures
        snapshot_of(object_key, payload) == Ok::<_, LedgerError>(payload),
        next_step(
            hash,
            StateView::Downloading { object_key },
            EventView::ObjectFetched { payload },
        ) == (
            StateView::Storing,
            ActionView::WriteCache { file_name: cache_name(hash), bytes: payload },
        ),
{
}

/// Of an archive, the contents of the first entry that is taken for the
/// ledger are written to the cache, and nothing else.
pub proof fn law_archive_entry_only(
    hash: Seq<char>,
    object_key: Seq<char>,
    payload: Seq<u8>,
    i: int,
)
    requires
        format_of(object_key) == Some(SnapshotFormat::Archive),
        0 <= i < archive_listing(payload).len(),
        archive_listing(payload)[i] matches Some((path, _)) && entry_matches(path, object_key),
        forall|j: int|
            0 <= j < i ==> (#[trigger] archive_listing(payload)[j] matches Some((path, _))
                && !entry_matches(path, object_key)),
    ensures
        archive_listing(payload)[i] matches Some((_, data)) && snapshot_of(object_key, payload)
            == Ok::<_, LedgerError>(data) && next_step(
            hash,
            StateView::Downloading { object_key },
            EventView::ObjectFetched { payload },
        ) == (
            StateView::Storing,
            ActionView::WriteCache { file_name: cache_name(hash), bytes: data },
        ),
{
    lemma_first_entry(archive_listing(payload), object_key, i);
}

/// The ledger of a listing is the first entry that matches, where every entry
/// before it was read and does not match.
proof fn lemma_first_entry(
    listing: Seq<Option<(Seq<char>, Seq<u8>)>>,
    object_key: Seq<char>,
    i: int,
)
    requires
        0 <= i < listing.len(),
        listing[i] matches Some((path, _)) && entry_matches(path, object_key),
        forall|j: int|
            0 <= j < i ==> (#[trigger] listing[j] matches Some((path, _)) && !entry_matches(
                path,
                object_key,
            )),
    ensures
        listing[i] matches Some((_, data)) && extracted_ledger(listing, object_key) == Ok::<
            _,
            LedgerError,
        >(data),
    decreases i,
{
    if i > 0 {
        let rest = listing.drop_first();
        assert(listing[0] matches Some((path, _)) && !entry_matches(path, object_key));
        assert(rest[i - 1] == listing[i]);
        assert forall|j: int| 0 <= j < i - 1 implies (#[trigger] rest[j] matches Some((path, _))
            && !entry_matches(path, object_key)) by {
            assert(rest[j] == listing[j + 1]);
        }
        lemma_first_entry(rest, object_key, i - 1);
    }
}

/// An object whose key ends in neither `.json`, `.tar.gz` nor `.txt` fails the
/// resolution as unsupported, and nothing is written to the cache then or
/// later.
pub proof fn law_unsupported_format(
    hash: Seq<char>,
    object_key: Seq<char>,
    payload: Seq<u8>,
    later: Seq<EventView>,
    i: int,
)
    requires
        !is_suffix(".json"@, object_key),
        !is_suffix(".tar.gz"@, object_key),
        !is_suffix(".txt"@, object_key),
        0 <= i < later.len(),
    ensures
        snapshot_of(object_key, payload) == Err::<Seq<u8>, LedgerError>(LedgerError::UnsupportedFormat),
        next_step(
            hash,
            StateView::Downloading { object_key },
            EventView::ObjectFetched { payload },
        ) == (StateView::Finished, ActionView::Fail { error: LedgerError::UnsupportedFormat }),
        actions_from(hash, StateView::Finished, later)[i] == ActionView::Ignore,
{
    law_finished_stays(hash, later, i);
}

} // verus!
