//! Ledger snapshots and the stake-weight engine.

use crate::amount::{amount_sum, balance_of, zero_balance, Amount};
use crate::error::LedgerError;
use crate::text::str_eq;
use vstd::hash_set::StringHashSet;
use vstd::prelude::*;

verus! {

/// The rule by which delegated stake is counted.
#[derive(Clone, Copy, Debug, PartialEq, Eq, Structural)]
pub enum ProposalVersion {
    /// An account that delegated away weighs nothing; every delegator counts.
    V1,
    /// Delegators that voted themselves are left out; no gating on the
    /// account's own delegation.
    V2,
}

/// One row of a balance snapshot.
#[derive(Clone, Debug, PartialEq, Eq, Hash)]
pub struct LedgerAccount {
    pub pk: String,
    pub balance: String,
    pub delegate: Option<String>,
}

/// A ledger row as the contracts see it.
pub struct AccountView {
    pub pk: Seq<char>,
    pub balance: Seq<char>,
    pub delegate: Option<Seq<char>>,
}

impl View for LedgerAccount {
    type V = AccountView;

    open spec fn view(&self) -> AccountView {
        AccountView {
            pk: self.pk@,
            balance: self.balance@,
            delegate: match self.delegate {
                Some(d) => Some(d@),
                None => None,
            },
        }
    }
}

/// The accounts of one snapshot, in the order of the snapshot file.
#[derive(Clone, Debug, PartialEq, Eq, Hash)]
pub struct Ledger(pub Vec<LedgerAccount>);

impl View for Ledger {
    type V = Seq<AccountView>;

    open spec fn view(&self) -> Seq<AccountView> {
        self.0@.map_values(|a: LedgerAccount| a@)
    }
}

/// The public keys that have already cast a vote.
pub struct VotedSet {
    keys: StringHashSet,
}

impl View for VotedSet {
    type V = Set<Seq<char>>;

    closed spec fn view(&self) -> Set<Seq<char>> {
        self.keys@
    }
}

/// The key that an account's stake counts for: its delegate, or itself where
/// it names none.
pub open spec fn effective_delegate(account: AccountView) -> Seq<char> {
    match account.delegate {
        Some(d) => d,
        None => account.pk,
    }
}

/// `i` is the first row of `accounts` whose key is `pk`.
pub open spec fn is_first_account(accounts: Seq<AccountView>, pk: Seq<char>, i: int) -> bool {
    &&& 0 <= i < accounts.len()
    &&& accounts[i].pk == pk
    &&& forall|j: int| 0 <= j < i ==> (#[trigger] accounts[j]).pk != pk
}

/// Some row of `accounts` has the key `pk`.
pub open spec fn has_account(accounts: Seq<AccountView>, pk: Seq<char>) -> bool {
    exists|i: int| 0 <= i < accounts.len() && (#[trigger] accounts[i]).pk == pk
}

/// The first row of `accounts` whose key is `pk`.
pub open spec fn first_account(accounts: Seq<AccountView>, pk: Seq<char>) -> AccountView {
    accounts[choose|i: int| is_first_account(accounts, pk, i)]
}

/// `account` is another account whose stake counts for `pk` under `version`:
/// its effective delegate is `pk`, and under V2 it has not voted itself.
pub open spec fn is_delegator(
    account: AccountView,
    pk: Seq<char>,
    voted: Set<Seq<char>>,
    version: ProposalVersion,
) -> bool {
    &&& effective_delegate(account) == pk
    &&& account.pk != pk
    &&& version == ProposalVersion::V2 ==> !voted.contains(account.pk)
}

/// The delegators of `pk`, in ledger order.
pub open spec fn delegators(
    accounts: Seq<AccountView>,
    pk: Seq<char>,
    voted: Set<Seq<char>>,
    version: ProposalVersion,
) -> Seq<AccountView> {
    accounts.filter(delegator_test(pk, voted, version))
}

/// The test that picks the delegators of `pk` out of a ledger.
pub open spec fn delegator_test(
    pk: Seq<char>,
    voted: Set<Seq<char>>,
    version: ProposalVersion,
) -> spec_fn(AccountView) -> bool {
    |a: AccountView| is_delegator(a, pk, voted, version)
}

/// One step of adding up balances: the balance of `row` plus what was added
/// up before it.
pub open spec fn add_balance() -> spec_fn(Option<Amount>, AccountView) -> Option<Amount> {
    |total: Option<Amount>, row: AccountView|
        match total {
            Some(t) => amount_sum(balance_of(row.balance), t),
            None => None,
        }
}

/// The balances of `rows` added up from zero at the ledger balance scale,
/// first row first; `None` as soon as a sum cannot be represented.
pub open spec fn balance_total(rows: Seq<AccountView>) -> Option<Amount> {
    rows.fold_left(Some(zero_balance()), add_balance())
}

/// The weight of `account`, whose key is `pk`, within `accounts`; `None`
/// where a sum cannot be represented.
pub open spec fn weight_of(
    accounts: Seq<AccountView>,
    account: AccountView,
    pk: Seq<char>,
    voted: Set<Seq<char>>,
    version: ProposalVersion,
) -> Option<Amount> {
    let own = balance_of(account.balance);
    let rows = delegators(accounts, pk, voted, version);
    if version == ProposalVersion::V1 && effective_delegate(account) != pk {
        Some(zero_balance())
    } else if rows.len() == 0 {
        Some(own)
    } else {
        match balance_total(rows) {
            Some(total) => amount_sum(total, own),
            None => None,
        }
    }
}

/// The stake weight of `pk`: `None` where a sum cannot be represented, an
/// error where the ledger has no such account.
pub open spec fn stake_weight(
    accounts: Seq<AccountView>,
    voted: Set<Seq<char>>,
    version: ProposalVersion,
    pk: Seq<char>,
) -> Option<Result<Amount, LedgerError>> {
    if has_account(accounts, pk) {
        match weight_of(accounts, first_account(accounts, pk), pk, voted, version) {
            Some(w) => Some(Ok(w)),
            None => None,
        }
    } else {
        Some(Err(LedgerError::AccountNotFound))
    }
}

impl VotedSet {
    /// A set in which nobody has voted.
    pub fn new() -> (set: VotedSet)
        ensures
            set@ == Set::<Seq<char>>::empty(),
    {
        VotedSet { keys: StringHashSet::new() }
    }

    /// Records that `pk` has voted.
    pub fn insert(&mut self, pk: String)
        ensures
            final(self)@ == old(self)@.insert(pk@),
    {
        self.keys.insert(pk);
    }

    /// Whether `pk` has voted.
    pub fn contains(&self, pk: &str) -> (voted: bool)
        ensures
            voted == self@.contains(pk@),
    {
        self.keys.contains(pk)
    }
}

impl LedgerAccount {
    pub fn new(pk: String, balance: String, delegate: Option<String>) -> (account: LedgerAccount)
        ensures
            account.pk == pk,
            account.balance == balance,
            account.delegate == delegate,
    {
        LedgerAccount { pk, balance, delegate }
    }

    /// Whether this account's stake counts for `pk`.
    pub fn delegates_to(&self, pk: &str) -> (same: bool)
        ensures
            same == (effective_delegate(self@) == pk@),
    {
        match &self.delegate {
            Some(d) => str_eq(d.as_str(), pk),
            None => str_eq(self.pk.as_str(), pk),
        }
    }
}

impl Ledger {
    /// The place of the first account whose key is `pk`.
    pub fn find_account(&self, pk: &str) -> (found: Option<usize>)
        ensures
            match found {
                Some(i) => is_first_account(self@, pk@, i as int),
                None => !has_account(self@, pk@),
            },
    {
        let mut i: usize = 0;
        while i < self.0.len()
            invariant
                i <= self.0.len(),
                forall|j: int| 0 <= j < i ==> (#[trigger] self@[j]).pk != pk@,
            decreases self.0.len() - i,
        {
            if str_eq(self.0[i].pk.as_str(), pk) {
                return Some(i);
            }
            i += 1;
        }
        None
    }

    /// Whether the account at `i` is a delegator of `pk` under `version`:
    /// another account whose stake counts for `pk` and that, under V2, has not
    /// voted itself.
    pub fn is_delegator_at(
        &self,
        i: usize,
        voted: &VotedSet,
        version: &ProposalVersion,
        pk: &str,
    ) -> (yes: bool)
        requires
            i < self@.len(),
        ensures
            yes == is_delegator(self@[i as int], pk@, voted@, *version),
    {
        let account = &self.0[i];
        if !account.delegates_to(pk) || str_eq(account.pk.as_str(), pk) {
            return false;
        }
        match version {
            ProposalVersion::V1 => true,
            ProposalVersion::V2 => !voted.contains(account.pk.as_str()),
        }
    }

    /// Adds up the balances of the delegators of `pk`, and says whether there
    /// is any.
    fn delegated_total(&self, voted: &VotedSet, version: ProposalVersion, pk: &str) -> (out: (
        bool,
        Option<Amount>,
    ))
        ensures
            out.0 == (delegators(self@, pk@, voted@, version).len() > 0),
            out.1 == balance_total(delegators(self@, pk@, voted@, version)),
    {
        let ghost test = delegator_test(pk@, voted@, version);
        let mut any = false;
        let mut total = Some(Amount::zero());
        let mut i: usize = 0;
        proof {
            assert(self@.take(0) =~= Seq::<AccountView>::empty());
            reveal(Seq::filter);
        }
        while i < self.0.len()
            invariant
                i <= self.0.len(),
                self.0.len() == self@.len(),
                test == delegator_test(pk@, voted@, version),
                any == (self@.take(i as int).filter(test).len() > 0),
                total == balance_total(self@.take(i as int).filter(test)),
            decreases self.0.len() - i,
        {
            proof {
                let before = self@.take(i as int);
                let row = self@[i as int];
                assert(self@.take(i + 1) =~= before.push(row));
                before.lemma_filter_push(row, test);
                assert(before.filter(test).push(row).drop_last() =~= before.filter(test));
            }
            if self.is_delegator_at(i, voted, &version, pk) {
                any = true;
                total =
                match total {
                    Some(t) => Amount::parse_balance(self.0[i].balance.as_str()).checked_add(t),
                    None => None,
                };
            }
            i += 1;
        }
        proof {
            assert(self@.take(self@.len() as int) =~= self@);
        }
        (any, total)
    }

    /// The stake weight of `pk`, or `None` where a sum cannot be represented.
    fn try_stake_weight(&self, voted: &VotedSet, version: ProposalVersion, pk: &str) -> (out:
        Option<Result<Amount, LedgerError>>)
        ensures
            out == stake_weight(self@, voted@, version, pk@),
    {
        let at = match self.find_account(pk) {
            Some(at) => at,
            None => { return Some(Err(LedgerError::AccountNotFound)); },
        };
        proof {
            lemma_first_account(self@, pk@, at as int);
        }
        let account = &self.0[at];
        let own = Amount::parse_balance(account.balance.as_str());
        if version == ProposalVersion::V1 && !account.delegates_to(pk) {
            return Some(Ok(Amount::zero()));
        }
        let (any, total) = self.delegated_total(voted, version, pk);
        if !any {
            return Some(Ok(own));
        }
        match total {
            Some(t) => match t.checked_add(own) {
                Some(w) => Some(Ok(w)),
                None => None,
            },
            None => None,
        }
    }

    /// Whether the stake weight of `pk` can be represented: no sum on the way
    /// to it overflows.
    pub fn stake_weight_fits(&self, voted: &VotedSet, version: &ProposalVersion, pk: &str) -> (fits:
        bool)
        ensures
            fits == stake_weight(self@, voted@, *version, pk@).is_some(),
    {
        self.try_stake_weight(voted, *version, pk).is_some()
    }

    /// The stake weight of `pk` under `version`.
    ///
    /// Fails with `AccountNotFound` exactly when no account has the key `pk`.
    /// Under V1 an account that delegates to another key weighs zero at the
    /// ledger balance scale. Otherwise the weight is the account's own balance
    /// where it has no delegators, and else the delegators' balances, added up
    /// in ledger order, plus its own balance.
    pub fn get_stake_weight(&self, voted: &VotedSet, version: &ProposalVersion, pk: &str) -> (out:
        Result<Amount, LedgerError>)
        requires
            stake_weight(self@, voted@, *version, pk@).is_some(),
        ensures
            Some(out) == stake_weight(self@, voted@, *version, pk@),
    {
        match self.try_stake_weight(voted, *version, pk) {
            Some(out) => out,
            // The precondition rules this out.
            None => Err(LedgerError::AccountNotFound),
        }
    }

    /// The stake weight of `pk` under `version`, or `None` where it cannot be
    /// represented.
    pub fn checked_stake_weight(
        &self,
        voted: &VotedSet,
        version: &ProposalVersion,
        pk: &str,
    ) -> (out: Option<Result<Amount, LedgerError>>)
        ensures
            out == stake_weight(self@, voted@, *version, pk@),
    {
        if self.stake_weight_fits(voted, version, pk) {
            Some(self.get_stake_weight(voted, version, pk))
        } else {
            None
        }
    }

    /// The stake weight of `pk` by the V1 rule, whoever has voted.
    pub fn get_stake_weight_mep(&self, voted: &VotedSet, pk: &str) -> (out: Result<
        Amount,
        LedgerError,
    >)
        requires
            stake_weight(self@, Set::empty(), ProposalVersion::V1, pk@).is_some(),
        ensures
            Some(out) == stake_weight(self@, Set::empty(), ProposalVersion::V1, pk@),
    {
        proof {
            lemma_v1_ignores_votes(self@, voted@, Set::empty(), pk@);
        }
        self.get_stake_weight(voted, &ProposalVersion::V1, pk)
    }

    /// The stake weight of `pk` by the V1 rule, or `None` where it cannot be
    /// represented.
    pub fn checked_stake_weight_mep(&self, voted: &VotedSet, pk: &str) -> (out: Option<
        Result<Amount, LedgerError>,
    >)
        ensures
            out == stake_weight(self@, Set::empty(), ProposalVersion::V1, pk@),
    {
        proof {
            lemma_v1_ignores_votes(self@, voted@, Set::empty(), pk@);
        }
        if self.stake_weight_fits(voted, &ProposalVersion::V1, pk) {
            Some(self.get_stake_weight_mep(voted, pk))
        } else {
            None
        }
    }
}

/// Under V1 the stake weight does not depend on who has voted.
pub proof fn lemma_v1_ignores_votes(
    accounts: Seq<AccountView>,
    voted: Set<Seq<char>>,
    other: Set<Seq<char>>,
    pk: Seq<char>,
)
    ensures
        stake_weight(accounts, voted, ProposalVersion::V1, pk) == stake_weight(
            accounts,
            other,
            ProposalVersion::V1,
            pk,
        ),
{
    let a = delegator_test(pk, voted, ProposalVersion::V1);
    let b = delegator_test(pk, other, ProposalVersion::V1);
    assert(a =~= b);
}

/// The first account with a key is the one that `first_account` names.
pub proof fn lemma_first_account(accounts: Seq<AccountView>, pk: Seq<char>, i: int)
    requires
        is_first_account(accounts, pk, i),
    ensures
        has_account(accounts, pk),
        first_account(accounts, pk) == accounts[i],
{
    let j = choose|j: int| is_first_account(accounts, pk, j);
    if j < i {
        assert(accounts[j].pk != pk);
    } else if i < j {
        assert(accounts[i].pk != pk);
    }
}

} // verus!
