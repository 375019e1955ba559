//! The bookkeeping of a memoizing cache, as a plain value: which keys have
//! been claimed for computation and which results have been published.

use std::collections::{HashMap, HashSet};
use std::hash::Hash;
use std::marker::PhantomData;
use vstd::prelude::*;
use vstd::std_specs::hash::obeys_key_model;

verus! {

/// What a caller has to do for a key.
#[derive(Debug, Clone, Copy, PartialEq, Eq)]
pub enum Claim {
    /// Nobody had claimed the key: this caller computes its value.
    Won,
    /// The key was claimed before: this caller waits for the value.
    Lost,
}

/// Which values a cache accepts for a key.
///
/// A cache with a rule holds, and hands out, only values that its rule
/// admits for their key. What a caller learns of a value it gets from the
/// cache is therefore the rule, whoever computed the value.
pub trait Rule<K, V> {
    /// Whether `value` may stand for `key`.
    spec fn admits(key: K, value: V) -> bool;
}

/// The rule that admits every value.
#[derive(Debug)]
pub struct AnyValue;

impl<K, V> Rule<K, V> for AnyValue {
    open spec fn admits(key: K, value: V) -> bool {
        true
    }
}

/// The claimed keys and the published results of a cache.
///
/// In every table, each key with a result has been claimed, and each result
/// is one that the rule `R` admits for its key.
#[derive(Debug)]
pub struct MemoTable<K, V, R: Rule<K, V> = AnyValue> {
    results: HashMap<K, V>,
    claimed: HashSet<K>,
    rule: PhantomData<R>,
}

impl<K, V, R: Rule<K, V>> MemoTable<K, V, R> {
    /// The published results.
    pub closed spec fn results(&self) -> Map<K, V> {
        self.results@
    }

    /// The keys whose computation somebody has taken on.
    pub closed spec fn claimed(&self) -> Set<K> {
        self.claimed@
    }

    /// Every key with a result has been claimed, and the rule admits the
    /// result.
    pub open spec fn wf(&self) -> bool {
        forall|key: K|
            (#[trigger] self.results().dom().contains(key)) ==> self.claimed().contains(key)
                && R::admits(key, self.results()[key])
    }

    #[verifier::type_invariant]
    spec fn inv(&self) -> bool {
        self.wf()
    }

    /// A table with no claims and no results.
    pub fn new() -> (table: Self)
        ensures
            table.results() == Map::<K, V>::empty(),
            table.claimed() == Set::<K>::empty(),
            table.wf(),
    {
        MemoTable { results: HashMap::new(), claimed: HashSet::new(), rule: PhantomData }
    }
}

impl<K: Eq + Hash, V, R: Rule<K, V>> MemoTable<K, V, R> {
    /// The result published for `key`, if there is one.
    pub fn lookup(&self, key: &K) -> (found: Option<&V>)
        requires
            obeys_key_model::<K>(),
        ensures
            found is Some <==> self.results().contains_key(*key),
            found is Some ==> *found->0 == self.results()[*key],
            self.wf(),
    {
        proof {
            use_type_invariant(self);
        }
        self.results.get(key)
    }

    /// Whether `key` still has no published result.
    pub fn lacks_result(&self, key: &K) -> (missing: bool)
        requires
            obeys_key_model::<K>(),
        ensures
            missing == !self.results().contains_key(*key),
    {
        !self.results.contains_key(key)
    }

    /// Whether somebody has taken on the computation of `key`.
    pub fn is_claimed(&self, key: &K) -> (taken: bool)
        requires
            obeys_key_model::<K>(),
        ensures
            taken == self.claimed().contains(*key),
    {
        self.claimed.contains(key)
    }

    /// Takes on the computation of `key` unless somebody has already. The
    /// first claim of a key wins, every later one loses.
    pub fn claim(&mut self, key: K) -> (outcome: Claim)
        requires
            obeys_key_model::<K>(),
        ensures
            outcome is Won <==> claim_wins(old(self).claimed(), key),
            final(self).claimed() == old(self).claimed().insert(key),
            final(self).results() == old(self).results(),
            old(self).wf(),
            final(self).wf(),
    {
        proof {
            use_type_invariant(&*self);
        }
        let ghost before = *self;
        let mut table = MemoTable::new();
        core::mem::swap(self, &mut table);
        let MemoTable { results, mut claimed, rule } = table;
        let fresh = claimed.insert(key);
        assert(before.wf() && results@ == before.results() && claimed@ == before.claimed().insert(
            key,
        ));
        *self = MemoTable { results, claimed, rule };
        if fresh {
            Claim::Won
        } else {
            Claim::Lost
        }
    }

    /// Publishes `value` as the result of `key` where the key has been
    /// claimed and has no result yet; otherwise the table stays as it is.
    /// Says whether `value` was stored. The value must be one that the rule
    /// admits for the key.
    pub fn publish(&mut self, key: K, value: V) -> (stored: bool)
        requires
            obeys_key_model::<K>(),
            R::admits(key, value),
        ensures
            stored == publish_stores(old(self).claimed(), old(self).results(), key),
            final(self).results() == published(
                old(self).claimed(),
                old(self).results(),
                key,
                value,
            ),
            final(self).claimed() == old(self).claimed(),
            old(self).wf(),
            final(self).wf(),
    {
        proof {
            use_type_invariant(&*self);
        }
        if self.claimed.contains(&key) && !self.results.contains_key(&key) {
            let ghost before = *self;
            let mut table = MemoTable::new();
            core::mem::swap(self, &mut table);
            let MemoTable { mut results, claimed, rule } = table;
            results.insert(key, value);
            assert(before.wf() && claimed@ == before.claimed() && results@
                == before.results().insert(key, value));
            *self = MemoTable { results, claimed, rule };
            true
        } else {
            false
        }
    }
}

impl<K, V, R: Rule<K, V>> Default for MemoTable<K, V, R> {
    fn default() -> (table: Self)
        ensures
            table.results() == Map::<K, V>::empty(),
            table.claimed() == Set::<K>::empty(),
    {
        MemoTable::new()
    }
}

/// Whether a claim of `key` wins, given the keys claimed so far.
pub open spec fn claim_wins<K>(claimed: Set<K>, key: K) -> bool {
    !claimed.contains(key)
}

/// Whether a value offered for `key` is stored: the key is claimed and has
/// no result.
pub open spec fn publish_stores<K, V>(claimed: Set<K>, results: Map<K, V>, key: K) -> bool {
    claimed.contains(key) && !results.contains_key(key)
}

/// The results after `value` has been offered for `key`.
pub open spec fn published<K, V>(claimed: Set<K>, results: Map<K, V>, key: K, value: V) -> Map<
    K,
    V,
> {
    if publish_stores(claimed, results, key) {
        results.insert(key, value)
    } else {
        results
    }
}

/// The claimed keys after each key of `keys` has been claimed in turn.
pub open spec fn claim_all<K>(claimed: Set<K>, keys: Seq<K>) -> Set<K>
    decreases keys.len(),
{
    if keys.len() == 0 {
        claimed
    } else {
        claim_all(claimed, keys.drop_last()).insert(keys.last())
    }
}

/// Whether the claim at position `i` of `keys` wins, when the claims are made
/// in turn on a table whose claimed keys are `claimed`.
pub open spec fn wins_at<K>(claimed: Set<K>, keys: Seq<K>, i: int) -> bool {
    claim_wins(claim_all(claimed, keys.take(i)), keys[i])
}

/// The keys claimed after a run of claims are the keys claimed before it and
/// the keys of the run.
pub proof fn lemma_claim_all_contains<K>(claimed: Set<K>, keys: Seq<K>, key: K)
    ensures
        claim_all(claimed, keys).contains(key) <==> claimed.contains(key) || keys.contains(key),
    decreases keys.len(),
{
    if keys.len() > 0 {
        let front = keys.drop_last();
        lemma_claim_all_contains(claimed, front, key);
        if keys.contains(key) && key != keys.last() {
            let i = choose|i: int| 0 <= i < keys.len() && keys[i] == key;
            assert(front[i] == key);
        }
        if front.contains(key) {
            let i = choose|i: int| 0 <= i < front.len() && front[i] == key;
            assert(keys[i] == key);
        }
        assert(keys[keys.len() - 1] == keys.last());
    }
}

/// Of two claims of one key, the later one loses: however many callers ask
/// for a key, and whatever else is claimed in between, at most one of them
/// is told to compute its value.
pub proof fn lemma_single_winner<K>(claimed: Set<K>, keys: Seq<K>, i: int, j: int)
    requires
        0 <= i < j < keys.len(),
        keys[i] == keys[j],
    ensures
        !wins_at(claimed, keys, j),
{
    let before = keys.take(j);
    assert(before[i] == keys[j]);
    lemma_claim_all_contains(claimed, before, keys[j]);
}

/// The first claim of a key that nobody had claimed wins: exactly one caller
/// computes, never none.
pub proof fn lemma_first_claim_wins<K>(claimed: Set<K>, keys: Seq<K>, i: int)
    requires
        0 <= i < keys.len(),
        !claimed.contains(keys[i]),
        forall|h: int| 0 <= h < i ==> keys[h] != keys[i],
    ensures
        wins_at(claimed, keys, i),
{
    let before = keys.take(i);
    lemma_claim_all_contains(claimed, before, keys[i]);
    if before.contains(keys[i]) {
        let h = choose|h: int| 0 <= h < before.len() && before[h] == keys[i];
        assert(keys[h] == keys[i]);
    }
}

/// A claim of one key does not decide a claim of another.
pub proof fn lemma_claims_independent<K>(claimed: Set<K>, a: K, b: K)
    requires
        a != b,
    ensures
        claim_wins(claimed.insert(a), b) == claim_wins(claimed, b),
{
}

/// A published result is final: a later offer for the same key changes
/// nothing, and an offer for another key leaves it in place.
pub proof fn lemma_result_is_final<K, V>(
    claimed: Set<K>,
    results: Map<K, V>,
    key: K,
    other: K,
    value: V,
)
    requires
        results.contains_key(key),
    ensures
        published(claimed, results, other, value).contains_key(key),
        published(claimed, results, other, value)[key] == results[key],
{
}

} // verus!
