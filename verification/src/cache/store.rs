//! The key/value protocol of the cache backend, as the cache client relies
//! on it: `SET key value EX 60` writes an entry that expires 60 seconds
//! later, and `GET key` answers the entry's value while it is live and
//! reports it absent from its expiry on.  The store keeps a write log;
//! later writes to a key shadow earlier ones.

use vstd::prelude::*;
use vstd::string::*;

verus! {

/// Time to live of one cache entry, in seconds, counted from its write.
pub const CACHE_TTL_SECONDS: u64 = 60;

/// The backend key/value store with per-entry expiry.  Its view is the
/// mapping from key to the live entry's value and expiry instant.
pub struct CacheStore {
    entries: Vec<(String, String, u64)>,
}

/// The mapping a write log stands for: each key bound to the value and
/// expiry of its latest write.
pub open spec fn log_as_map(entries: Seq<(String, String, u64)>) -> Map<
    Seq<char>,
    (Seq<char>, u64),
>
    decreases entries.len(),
{
    if entries.len() == 0 {
        Map::empty()
    } else {
        log_as_map(entries.drop_last()).insert(
            entries.last().0@,
            (entries.last().1@, entries.last().2),
        )
    }
}

/// A key written nowhere in the log is absent from its mapping.
proof fn lemma_log_absent(entries: Seq<(String, String, u64)>, key: Seq<char>)
    requires
        forall|j: int| 0 <= j < entries.len() ==> entries[j].0@ != key,
    ensures
        !log_as_map(entries).contains_key(key),
    decreases entries.len(),
{
    if entries.len() > 0 {
        lemma_log_absent(entries.drop_last(), key);
    }
}

/// The latest write to a key decides its binding in the mapping.
proof fn lemma_log_last_match(entries: Seq<(String, String, u64)>, key: Seq<char>, i: int)
    requires
        0 <= i < entries.len(),
        entries[i].0@ == key,
        forall|j: int| i < j < entries.len() ==> entries[j].0@ != key,
    ensures
        log_as_map(entries).contains_key(key),
        log_as_map(entries)[key] == (entries[i].1@, entries[i].2),
    decreases entries.len(),
{
    if i < entries.len() - 1 {
        lemma_log_last_match(entries.drop_last(), key, i);
    }
}

impl View for CacheStore {
    type V = Map<Seq<char>, (Seq<char>, u64)>;

    closed spec fn view(&self) -> Map<Seq<char>, (Seq<char>, u64)> {
        log_as_map(self.entries@)
    }
}

impl CacheStore {
    /// An empty store.
    pub fn new() -> (r: Self)
        ensures
            r@ == Map::<Seq<char>, (Seq<char>, u64)>::empty(),
    {
        CacheStore { entries: Vec::new() }
    }

    /// `SET key value EX 60`: bind `key` to `value` until
    /// `CACHE_TTL_SECONDS` past the write instant `now`.
    pub fn set_ex(&mut self, key: &str, value: &str, now: u64)
        requires
            now + CACHE_TTL_SECONDS <= u64::MAX,
        ensures
            final(self)@ == old(self)@.insert(
                key@,
                (value@, (now + CACHE_TTL_SECONDS) as u64),
            ),
    {
        let ghost pre = self.entries@;
        let expiry = now + CACHE_TTL_SECONDS;
        self.entries.push((String::from_str(key), String::from_str(value), expiry));
        proof {
            assert(self.entries@.drop_last() =~= pre);
        }
    }

    /// `GET key` at instant `now`: the value of the entry under `key`
    /// while `now` is before its expiry; absent otherwise — an expired
    /// entry is a cache miss, exactly as a never-written key is.
    pub fn get(&self, key: &str, now: u64) -> (r: Option<String>)
        ensures
            self@.contains_key(key@) && now < self@[key@].1 ==> (r matches Some(v) && v@
                == self@[key@].0),
            !(self@.contains_key(key@) && now < self@[key@].1) ==> r is None,
    {
        let key_string = String::from_str(key);
        let n = self.entries.len();
        let mut i: usize = n;
        while i > 0
            invariant
                n == self.entries@.len(),
                0 <= i <= n,
                key_string@ == key@,
                forall|j: int| i <= j < n ==> self.entries@[j].0@ != key@,
            decreases i,
        {
            i = i - 1;
            if self.entries[i].0 == key_string {
                proof {
                    lemma_log_last_match(self.entries@, key@, i as int);
                }
                if now < self.entries[i].2 {
                    return Some(self.entries[i].1.clone());
                } else {
                    return None;
                }
            }
        }
        proof {
            lemma_log_absent(self.entries@, key@);
        }
        None
    }
}

/// TTL round trip: a value stored under a key at instant `now` is, from
/// that write until `CACHE_TTL_SECONDS` later, exactly what a lookup of
/// the key answers; at and after the expiry instant the key is reported
/// absent.
pub proof fn lemma_ttl_round_trip(
    store: Map<Seq<char>, (Seq<char>, u64)>,
    key: Seq<char>,
    value: Seq<char>,
    now: u64,
    later: u64,
)
    requires
        now + CACHE_TTL_SECONDS <= u64::MAX,
    ensures
        ({
            let written = store.insert(key, (value, (now + CACHE_TTL_SECONDS) as u64));
            &&& later < now + CACHE_TTL_SECONDS ==> written.contains_key(key) && later
                < written[key].1 && written[key].0 == value
            &&& later >= now + CACHE_TTL_SECONDS ==> !(written.contains_key(key) && later
                < written[key].1)
        }),
{
}

} // verus!
