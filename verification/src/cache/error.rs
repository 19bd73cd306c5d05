//! Errors surfaced by one logical cache operation.

use vstd::prelude::*;

verus! {

/// Outcome of a failed cache operation.
///
/// `PoolExhaustionWithConnectionDropError` means every connection in the
/// pool failed with a connection-dropped condition during this one logical
/// operation. `RedisError` wraps any other backend failure (its message):
/// such a failure is surfaced immediately, with no failover.
#[derive(Debug)]
pub enum PoolError {
    PoolExhaustionWithConnectionDropError,
    RedisError(String),
}

impl PoolError {
    /// Human-readable description, in place of a `Display` impl.
    pub fn message(&self) -> (r: String)
        ensures
            self is PoolExhaustionWithConnectionDropError ==> r@ == (
            "provided connection pool exhausted with connection drop errors"@),
            self matches PoolError::RedisError(m) ==> r@ == m@,
    {
        match self {
            PoolError::PoolExhaustionWithConnectionDropError => String::from_str(
                "provided connection pool exhausted with connection drop errors",
            ),
            PoolError::RedisError(m) => m.clone(),
        }
    }
}

} // verus!
