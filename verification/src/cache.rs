//! Thread-safe key/value cache that computes the value of each key once.

use crate::memo::{AnyValue, Claim, MemoTable, Rule};
use crate::sync::{lock_take, restore};
use std::hash::Hash;
use std::sync::{Condvar, Mutex, MutexGuard};
use vstd::prelude::*;
use vstd::std_specs::hash::obeys_key_model;

verus! {

/// `Condvar::wait_while` on the table of a cache: stores `table` behind the
/// guard, releases the lock and sleeps until the stored table holds a result
/// for `key`, then moves that table out with the lock held again. The table
/// that comes back therefore has a result for `key`. A poisoned mutex aborts
/// the calling thread.
#[verifier::external_body]
fn wait_published<'a, K: Eq + Hash, V, R: Rule<K, V>>(
    cv: &Condvar,
    guard: MutexGuard<'a, MemoTable<K, V, R>>,
    table: MemoTable<K, V, R>,
    key: &K,
) -> (held: (MutexGuard<'a, MemoTable<K, V, R>>, MemoTable<K, V, R>))
    ensures
        held.1.results().contains_key(*key),
{
    let mut guard = guard;
    *guard = table;
    let mut guard = cv.wait_while(guard, |t: &mut MemoTable<K, V, R>| t.lacks_result(key)).unwrap();
    let table = std::mem::take(&mut *guard);
    (guard, table)
}

/// Whether the rule `R` treats copies as it treats what they were copied
/// from, for the key `key`: a copy of a value that it admits for `key` is
/// admitted for `key`, and what it admits for `key` it admits for a copy of
/// `key`.
pub open spec fn admits_copies<K: Clone, V: Clone, R: Rule<K, V>>(key: K) -> bool {
    &&& forall|value: V, copy: V|
        (#[trigger] cloned(value, copy)) && R::admits(key, value) ==> R::admits(key, copy)
    &&& forall|slot: K, value: V|
        cloned(key, slot) && R::admits(key, value) ==> #[trigger] R::admits(slot, value)
}

/// Cache that remembers the result for each key.
///
/// The table of claims and results sits behind one lock, which is held only
/// to decide who computes and to publish a result, never while a value is
/// being computed.
///
/// With a rule `R` the cache takes and gives only values that `R` admits for
/// their key. Without one, every value is admitted.
#[derive(Debug)]
#[verifier::reject_recursive_types(K)]
#[verifier::reject_recursive_types(V)]
#[verifier::reject_recursive_types(R)]
pub struct Cache<K, V, R: Rule<K, V> = AnyValue> {
    table: Mutex<MemoTable<K, V, R>>,
    published: Condvar,
}

impl<K, V, R: Rule<K, V>> Default for Cache<K, V, R> {
    /// An empty cache.
    fn default() -> Self {
        Cache { table: Mutex::new(MemoTable::new()), published: Condvar::new() }
    }
}

impl<K: Eq + Hash + Clone, V: Clone, R: Rule<K, V>> Cache<K, V, R> {
    /// Retrieve the value of `key`, or insert the one that `f` creates.
    ///
    /// A call for one key does not wait for the computation of another: `f`
    /// runs with the lock released. For one key, only the caller whose claim
    /// wins runs its `f`; the others sleep until that result is published
    /// and return a copy of it.
    ///
    /// The value that comes back is one that the rule admits for `key`,
    /// whether this call computed it or another one did. For that, `f` must
    /// return only values that the rule admits for `key`.
    pub fn get_or_insert_with<F: FnOnce(K) -> V>(&self, key: K, f: F) -> (value: V)
        requires
            obeys_key_model::<K>(),
            f.requires((key,)),
            forall|made: V| f.ensures((key,), made) ==> R::admits(key, made),
            admits_copies::<K, V, R>(key),
        ensures
            R::admits(key, value),
    {
        let (guard, mut table) = lock_take(&self.table);
        if let Some(found) = table.lookup(&key) {
            let value = found.clone();
            assert(R::admits(key, *found) && cloned(*found, value));
            restore(guard, table);
            return value;
        }
        match table.claim(key.clone()) {
            Claim::Won => {
                restore(guard, table);
                let slot = key.clone();
                let value = f(key);
                let stored = value.clone();
                assert(R::admits(key, value) && cloned(value, stored));
                assert(R::admits(key, stored) && cloned(key, slot));
                let (guard, mut table) = lock_take(&self.table);
                table.publish(slot, stored);
                restore(guard, table);
                self.published.notify_all();
                value
            },
            Claim::Lost => {
                let (guard, table) = wait_published(&self.published, guard, table, &key);
                let found = table.lookup(&key).unwrap();
                let value = found.clone();
                assert(R::admits(key, *found) && cloned(*found, value));
                restore(guard, table);
                value
            },
        }
    }
}

} // verus!
