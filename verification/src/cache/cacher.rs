//! The pooled cache client's core: content-addressed key derivation and the
//! linear failover walk that one logical cache operation performs over the
//! connection pool.
//!
//! One `get`/`put` starts a fresh [`FailoverCursor`] at connection 0.  Every
//! attempt on a connection either settles the operation (success, or a
//! backend error that is surfaced at once) or — on a connection-dropped
//! condition — moves the cursor to the next connection, until the pool is
//! exhausted.  The cursor is local to one logical operation: it is never
//! shared across concurrent calls.

use vstd::prelude::*;
use vstd::string::*;

use crate::cache::error::PoolError;

verus! {

/// What one attempt of the underlying cache command on one pool connection
/// came to.  The caller classifies the driver's error: a connection-dropped
/// condition (the transport for that slot is no longer usable) is the only
/// outcome that failover may skip past; any other backend error carries its
/// message and settles the operation at once.
pub enum AttemptOutcome {
    Success,
    ConnectionDropped,
    BackendError(String),
}

/// Index of the first outcome at or after `i` that is not a
/// connection-dropped condition — the attempt on which the operation
/// settles — or `outs.len()` if every remaining connection dropped.
pub open spec fn first_settle_from(outs: Seq<AttemptOutcome>, i: int) -> int
    decreases outs.len() - i,
{
    if i < 0 || i >= outs.len() {
        outs.len() as int
    } else if !(outs[i] is ConnectionDropped) {
        i
    } else {
        first_settle_from(outs, i + 1)
    }
}

/// The attempt on which one logical operation over the pool settles.
pub open spec fn first_settle(outs: Seq<AttemptOutcome>) -> int {
    first_settle_from(outs, 0)
}

/// How many connections one logical operation touches, given what each
/// connection in order would answer: one attempt per dropped connection up
/// to and including the settling one, and never more than the pool size.
pub open spec fn attempts_of(outs: Seq<AttemptOutcome>) -> int {
    if first_settle(outs) < outs.len() {
        first_settle(outs) + 1
    } else {
        outs.len() as int
    }
}

/// A prefix of connection-dropped outcomes does not change where the
/// operation settles.
proof fn lemma_settle_prefix(outs: Seq<AttemptOutcome>, i: int)
    requires
        0 <= i <= outs.len(),
        forall|j: int| 0 <= j < i ==> outs[j] is ConnectionDropped,
    ensures
        first_settle(outs) == first_settle_from(outs, i),
    decreases i,
{
    if i > 0 {
        lemma_settle_prefix(outs, i - 1);
    }
}

/// The failover pointer of one logical cache operation: which connection of
/// a pool of `pool_size` is being attempted.  Fresh per operation, starting
/// at connection 0, and never reaching `pool_size` — exhaustion is signalled
/// by the decision returned from [`FailoverCursor::on_error`] instead of by
/// an out-of-range index.
pub struct FailoverCursor {
    current_connection: u8,
    pool_size: u8,
}

impl FailoverCursor {
    /// The connection currently being attempted.
    pub closed spec fn cursor(&self) -> int {
        self.current_connection as int
    }

    /// The fixed number of connections in the pool being walked.
    pub closed spec fn pool(&self) -> int {
        self.pool_size as int
    }

    /// The cursor always indexes into the pool.
    pub open spec fn wf(&self) -> bool {
        0 <= self.cursor() < self.pool()
    }

    /// Start a logical cache operation at connection 0.
    pub fn new(pool_size: u8) -> (r: Self)
        requires
            pool_size > 0,
        ensures
            r.wf(),
            r.cursor() == 0,
            r.pool() == pool_size as int,
    {
        FailoverCursor { current_connection: 0, pool_size }
    }

    /// The connection to attempt next.
    pub fn index(&self) -> (r: u8)
        ensures
            r as int == self.cursor(),
    {
        self.current_connection
    }

    /// Decide what a failed attempt on the current connection means for the
    /// operation.  A connection-dropped condition moves on to the next
    /// connection (`None`: retry there), or exhausts the pool; any other
    /// backend failure is surfaced at once with its message, and the cursor
    /// does not move.
    pub fn on_error(&mut self, connection_dropped: bool, message: &str) -> (r: Option<PoolError>)
        requires
            old(self).wf(),
        ensures
            final(self).wf(),
            final(self).pool() == old(self).pool(),
            !connection_dropped ==> {
                &&& final(self).cursor() == old(self).cursor()
                &&& r matches Some(e) && (e matches PoolError::RedisError(m) && m@ == message@)
            },
            connection_dropped && old(self).cursor() + 1 < old(self).pool() ==> {
                &&& r is None
                &&& final(self).cursor() == old(self).cursor() + 1
            },
            connection_dropped && old(self).cursor() + 1 == old(self).pool() ==> {
                &&& final(self).cursor() == old(self).cursor()
                &&& r matches Some(e) && e is PoolExhaustionWithConnectionDropError
            },
    {
        if connection_dropped {
            if self.current_connection + 1 == self.pool_size {
                Some(PoolError::PoolExhaustionWithConnectionDropError)
            } else {
                self.current_connection = self.current_connection + 1;
                None
            }
        } else {
            Some(PoolError::RedisError(String::from_str(message)))
        }
    }
}

/// Walk a pool whose answers are given in advance — `outcomes[i]` is what
/// connection `i` would answer — and report which connection settled the
/// operation together with how many attempts were made.  This is the whole
/// failover algorithm of one logical `get`/`put`, driven by
/// [`FailoverCursor`]: retries happen exactly on connection-dropped
/// conditions, any other backend error fails fast, and a pool in which
/// every connection drops yields pool exhaustion after `pool_size`
/// attempts.
pub fn run_failover(outcomes: &Vec<AttemptOutcome>) -> (r: (Result<usize, PoolError>, usize))
    requires
        0 < outcomes@.len() < 256,
    ensures
        r.1 as int == attempts_of(outcomes@),
        first_settle(outcomes@) == outcomes@.len() ==> (r.0 matches Err(e)
            && e is PoolExhaustionWithConnectionDropError),
        first_settle(outcomes@) < outcomes@.len() && outcomes@[first_settle(outcomes@)]
            is Success ==> (r.0 matches Ok(i) && i as int == first_settle(outcomes@)),
        first_settle(outcomes@) < outcomes@.len() ==> (outcomes@[first_settle(outcomes@)]
            matches AttemptOutcome::BackendError(m) ==> (r.0 matches Err(e)
            && (e matches PoolError::RedisError(mm) && mm@ == m@))),
{
    let mut cursor = FailoverCursor::new(outcomes.len() as u8);
    let mut attempts: usize = 0;
    loop
        invariant
            cursor.wf(),
            cursor.pool() == outcomes@.len(),
            0 < outcomes@.len() < 256,
            attempts as int == cursor.cursor(),
            forall|j: int| 0 <= j < cursor.cursor() ==> outcomes@[j] is ConnectionDropped,
        decreases outcomes@.len() - cursor.cursor(),
    {
        let i = cursor.index() as usize;
        attempts = attempts + 1;
        match &outcomes[i] {
            AttemptOutcome::Success => {
                proof {
                    lemma_settle_prefix(outcomes@, i as int);
                }
                return (Ok(i), attempts);
            }
            AttemptOutcome::ConnectionDropped => {
                match cursor.on_error(true, "") {
                    Some(e) => {
                        proof {
                            lemma_settle_prefix(outcomes@, outcomes@.len() as int);
                        }
                        return (Err(e), attempts);
                    }
                    None => {},
                }
            }
            AttemptOutcome::BackendError(m) => {
                match cursor.on_error(false, m.as_str()) {
                    Some(e) => {
                        proof {
                            lemma_settle_prefix(outcomes@, i as int);
                        }
                        return (Err(e), attempts);
                    }
                    None => {
                        proof {
                            assert(false);
                        }
                    },
                }
            }
        }
    }
}

/// Failover bound: when the first `k` connections answer with a
/// connection-dropped condition and connection `k` settles the operation,
/// the operation settles on connection `k` after exactly `k + 1` attempts.
pub proof fn lemma_failover_bound(outs: Seq<AttemptOutcome>, k: int)
    requires
        0 <= k < outs.len(),
        forall|j: int| 0 <= j < k ==> outs[j] is ConnectionDropped,
        !(outs[k] is ConnectionDropped),
    ensures
        first_settle(outs) == k,
        attempts_of(outs) == k + 1,
{
    lemma_settle_prefix(outs, k);
}

/// Pool exhaustion: when every connection answers with a connection-dropped
/// condition, the operation makes exactly one attempt per connection and
/// settles nowhere.
pub proof fn lemma_pool_exhaustion(outs: Seq<AttemptOutcome>)
    requires
        forall|j: int| 0 <= j < outs.len() ==> outs[j] is ConnectionDropped,
    ensures
        first_settle(outs) == outs.len(),
        attempts_of(outs) == outs.len(),
{
    lemma_settle_prefix(outs, outs.len() as int);
}

/// Fail-fast: a backend error that is not a connection-dropped condition on
/// the first connection settles the operation after exactly one attempt —
/// no other connection is touched.
pub proof fn lemma_fail_fast(outs: Seq<AttemptOutcome>)
    requires
        outs.len() > 0,
        outs[0] is BackendError,
    ensures
        first_settle(outs) == 0,
        attempts_of(outs) == 1,
{
}

/// The content-addressed fingerprint under which a request URL is stored
/// and looked up in the cache backend: byte-identical URLs always map to
/// the same key.
pub uninterp spec fn md5_hex_of(url: Seq<char>) -> Seq<char>;

/// Relies on `md5::compute` and the hex `Debug` format of its digest: the
/// digest is a pure function of the input bytes, rendered as exactly 32
/// lowercase hexadecimal digits.
#[verifier::external_body]
fn md5_hex(url: &str) -> (r: String)
    ensures
        r@ == md5_hex_of(url@),
        r@.len() == 32,
{
    format!("{:?}", md5::compute(url))
}

/// Compute the fixed-length cache key of a request URL.
pub fn hash_url(url: &str) -> (r: String)
    ensures
        r@ == md5_hex_of(url@),
        r@.len() == 32,
{
    md5_hex(url)
}

/// Cache-key determinism: requests with identical URLs always map to the
/// same cache key.
pub proof fn lemma_hash_deterministic(url1: Seq<char>, url2: Seq<char>)
    requires
        url1 == url2,
    ensures
        md5_hex_of(url1) == md5_hex_of(url2),
{
}

} // verus!
