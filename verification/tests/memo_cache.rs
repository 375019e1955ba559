use hello_server::cache::Cache;
use hello_server::memo::{AnyValue, Claim, MemoTable};
use std::sync::atomic::{AtomicUsize, Ordering};

#[test]
fn table_starts_empty() {
    let table: MemoTable<u64, String> = MemoTable::new();
    assert!(table.lookup(&7).is_none());
    assert!(table.lacks_result(&7));
    assert!(!table.is_claimed(&7));
}

#[test]
fn default_table_is_empty() {
    let table: MemoTable<String, u8> = MemoTable::default();
    assert!(table.lookup(&"k".to_string()).is_none());
    assert!(!table.is_claimed(&"k".to_string()));
}

#[test]
fn first_claim_wins_later_claims_lose() {
    let mut table: MemoTable<String, u32> = MemoTable::new();
    assert!(matches!(table.claim("k".to_string()), Claim::Won));
    assert!(matches!(table.claim("k".to_string()), Claim::Lost));
    assert!(matches!(table.claim("other".to_string()), Claim::Won));
    assert!(matches!(table.claim("k".to_string()), Claim::Lost));
    assert!(table.is_claimed(&"k".to_string()));
    assert!(table.lacks_result(&"k".to_string()));
}

#[test]
fn claims_of_distinct_keys_do_not_interfere() {
    let mut table: MemoTable<u8, u8> = MemoTable::new();
    assert!(matches!(table.claim(1), Claim::Won));
    assert!(matches!(table.claim(2), Claim::Won));
    assert!(matches!(table.claim(1), Claim::Lost));
    assert!(matches!(table.claim(2), Claim::Lost));
}

#[test]
fn publish_stores_for_a_claimed_key() {
    let mut table: MemoTable<u64, String> = MemoTable::new();
    assert!(matches!(table.claim(3), Claim::Won));
    assert!(table.publish(3, "three".to_string()));
    assert_eq!(table.lookup(&3), Some(&"three".to_string()));
    assert!(!table.lacks_result(&3));
    assert!(table.lookup(&4).is_none());
}

#[test]
fn publish_without_claim_is_ignored() {
    let mut table: MemoTable<u64, u64> = MemoTable::new();
    assert!(!table.publish(3, 30));
    assert!(table.lookup(&3).is_none());
    assert!(!table.is_claimed(&3));
}

#[test]
fn published_result_is_final() {
    let mut table: MemoTable<u64, u64> = MemoTable::new();
    table.claim(1);
    table.claim(2);
    assert!(table.publish(1, 10));
    assert!(!table.publish(1, 11));
    assert!(table.publish(2, 20));
    assert_eq!(table.lookup(&1), Some(&10));
    assert_eq!(table.lookup(&2), Some(&20));
}

#[test]
fn cache_computes_on_miss_and_remembers() {
    let cache: Cache<String, usize> = Cache::default();
    let calls = AtomicUsize::new(0);
    let first = cache.get_or_insert_with("k".to_string(), |key| {
        calls.fetch_add(1, Ordering::SeqCst);
        key.len() + 41
    });
    let second = cache.get_or_insert_with("k".to_string(), |_| {
        calls.fetch_add(1, Ordering::SeqCst);
        0
    });
    assert_eq!(first, 42);
    assert_eq!(second, 42);
    assert_eq!(calls.load(Ordering::SeqCst), 1);
}

#[test]
fn cache_keeps_keys_apart() {
    let cache: Cache<u32, u32> = Cache::default();
    assert_eq!(cache.get_or_insert_with(1, |k| k * 10), 10);
    assert_eq!(cache.get_or_insert_with(2, |k| k * 10), 20);
    assert_eq!(cache.get_or_insert_with(1, |k| k * 100), 10);
    assert_eq!(cache.get_or_insert_with(2, |k| k * 100), 20);
}

#[test]
fn cache_hands_out_copies() {
    let cache: Cache<u8, Vec<u8>> = Cache::default();
    let mut first = cache.get_or_insert_with(1, |_| vec![1, 2, 3]);
    first.push(4);
    first[0] = 9;
    let second = cache.get_or_insert_with(1, |_| vec![]);
    assert_eq!(second, vec![1, 2, 3]);
}

#[test]
fn single_computation_per_key() {
    let cache: Cache<String, usize> = Cache::default();
    let counter = AtomicUsize::new(0);
    let mut values = Vec::new();
    for _ in 0..8 {
        values.push(cache.get_or_insert_with("k".to_string(), |_| {
            counter.fetch_add(1, Ordering::SeqCst) + 1
        }));
    }
    assert_eq!(counter.load(Ordering::SeqCst), 1);
    assert_eq!(values, vec![1; 8]);
}

#[test]
fn cross_key_independence() {
    // While the value of "a" is being computed, a call for "b" goes through.
    let cache: Cache<String, u32> = Cache::default();
    let a = cache.get_or_insert_with("a".to_string(), |_| {
        cache.get_or_insert_with("b".to_string(), |_| 2) + 10
    });
    assert_eq!(a, 12);
    assert_eq!(cache.get_or_insert_with("b".to_string(), |_| 0), 2);
    assert_eq!(cache.get_or_insert_with("a".to_string(), |_| 0), 12);
}

#[test]
fn computation_may_read_finished_keys() {
    let cache: Cache<u32, u32> = Cache::default();
    assert_eq!(cache.get_or_insert_with(1, |_| 5), 5);
    let two = cache.get_or_insert_with(2, |_| cache.get_or_insert_with(1, |_| 0) * 2);
    assert_eq!(two, 10);
}

#[test]
fn table_with_the_default_rule_is_spelled_either_way() {
    let mut table: MemoTable<u8, u8, AnyValue> = MemoTable::default();
    assert_eq!(table.claim(1), Claim::Won);
    assert!(table.publish(1, 2));
    let same: MemoTable<u8, u8> = table;
    assert_eq!(same.lookup(&1), Some(&2));
}
