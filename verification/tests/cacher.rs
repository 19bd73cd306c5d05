//! Tests of the cache layer: key hashing, the failover walk over the
//! connection pool, and the backend store's TTL behaviour.

use websurfx::cache::cacher::{hash_url, run_failover, AttemptOutcome, FailoverCursor};
use websurfx::cache::error::PoolError;
use websurfx::cache::store::CacheStore;

#[test]
fn hash_url_known_digests() {
    assert_eq!(hash_url(""), "d41d8cd98f00b204e9800998ecf8427e");
    assert_eq!(hash_url("abc"), "900150983cd24fb0d6963f7d28e17f72");
}

#[test]
fn hash_url_is_deterministic() {
    let u = "https://www.example.com/?q=rust";
    assert_eq!(hash_url(u), hash_url(u));
}

#[test]
fn hash_url_separates_distinct_urls() {
    let corpus = [
        "https://www.example.com/?q=rust",
        "https://www.example.com/?q=rust ",
        "https://www.example.com/?q=Rust",
        "http://www.example.com/?q=rust",
        "",
    ];
    for a in 0..corpus.len() {
        for b in 0..corpus.len() {
            let same = hash_url(corpus[a]) == hash_url(corpus[b]);
            assert_eq!(same, a == b);
        }
    }
}

#[test]
fn hash_url_is_fixed_length() {
    assert_eq!(hash_url("").len(), 32);
    assert_eq!(hash_url("a very long url with many characters in it").len(), 32);
}

#[test]
fn failover_succeeds_after_dropped_connections() {
    let outcomes = vec![
        AttemptOutcome::ConnectionDropped,
        AttemptOutcome::ConnectionDropped,
        AttemptOutcome::Success,
        AttemptOutcome::Success,
    ];
    let (result, attempts) = run_failover(&outcomes);
    assert!(matches!(result, Ok(2)));
    assert_eq!(attempts, 3);
}

#[test]
fn failover_succeeds_on_first_connection() {
    let outcomes = vec![AttemptOutcome::Success, AttemptOutcome::ConnectionDropped];
    let (result, attempts) = run_failover(&outcomes);
    assert!(matches!(result, Ok(0)));
    assert_eq!(attempts, 1);
}

#[test]
fn failover_exhausts_pool_after_touching_every_connection() {
    let outcomes = vec![
        AttemptOutcome::ConnectionDropped,
        AttemptOutcome::ConnectionDropped,
        AttemptOutcome::ConnectionDropped,
    ];
    let (result, attempts) = run_failover(&outcomes);
    assert!(matches!(
        result,
        Err(PoolError::PoolExhaustionWithConnectionDropError)
    ));
    assert_eq!(attempts, 3);
}

#[test]
fn failover_fails_fast_on_backend_error() {
    let outcomes = vec![
        AttemptOutcome::BackendError(String::from("WRONGTYPE")),
        AttemptOutcome::Success,
    ];
    let (result, attempts) = run_failover(&outcomes);
    match result {
        Err(PoolError::RedisError(m)) => assert_eq!(m, "WRONGTYPE"),
        _ => panic!("expected the backend error to be surfaced"),
    }
    assert_eq!(attempts, 1);
}

#[test]
fn cursor_walks_and_exhausts() {
    let mut cursor = FailoverCursor::new(2);
    assert_eq!(cursor.index(), 0);
    assert!(matches!(cursor.on_error(true, ""), None));
    assert_eq!(cursor.index(), 1);
    assert!(matches!(
        cursor.on_error(true, ""),
        Some(PoolError::PoolExhaustionWithConnectionDropError)
    ));
}

#[test]
fn cursor_fails_fast_without_moving() {
    let mut cursor = FailoverCursor::new(3);
    match cursor.on_error(false, "protocol error") {
        Some(PoolError::RedisError(m)) => assert_eq!(m, "protocol error"),
        _ => panic!("expected the backend error to be surfaced"),
    }
    assert_eq!(cursor.index(), 0);
}

#[test]
fn store_round_trip_within_ttl() {
    let mut store = CacheStore::new();
    let key = hash_url("https://www.example.com/?q=rust");
    store.set_ex(&key, "[\"results\"]", 1000);
    assert_eq!(store.get(&key, 1000), Some(String::from("[\"results\"]")));
    assert_eq!(store.get(&key, 1059), Some(String::from("[\"results\"]")));
}

#[test]
fn store_entry_expires_after_ttl() {
    let mut store = CacheStore::new();
    let key = hash_url("https://www.example.com/?q=rust");
    store.set_ex(&key, "[\"results\"]", 1000);
    assert_eq!(store.get(&key, 1060), None);
    assert_eq!(store.get(&key, 5000), None);
}

#[test]
fn store_misses_on_unknown_key() {
    let store = CacheStore::new();
    assert_eq!(store.get("no such key", 0), None);
}

#[test]
fn store_rewrite_refreshes_value_and_ttl() {
    let mut store = CacheStore::new();
    store.set_ex("k", "old", 0);
    store.set_ex("k", "new", 50);
    assert_eq!(store.get("k", 59), Some(String::from("new")));
    assert_eq!(store.get("k", 109), Some(String::from("new")));
    assert_eq!(store.get("k", 110), None);
}

#[test]
fn pool_error_messages() {
    let exhausted = PoolError::PoolExhaustionWithConnectionDropError;
    assert_eq!(
        exhausted.message(),
        "provided connection pool exhausted with connection drop errors"
    );
    let backend = PoolError::RedisError(String::from("io error"));
    assert_eq!(backend.message(), "io error");
}
