//! The fault-tolerant result cache: connection-pool failover, cache-key
//! hashing, the error taxonomy of the cache layer, and the model of the
//! backend key/value store with its 60-second entry expiry.

pub mod cacher;
pub mod error;
pub mod store;
