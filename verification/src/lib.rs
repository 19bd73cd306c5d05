//! Core of a metasearch aggregator: a fault-tolerant pooled result cache
//! (content-addressed keys, linear failover across pool connections, short
//! TTL entries) and the backend scraping contract with its DuckDuckGo
//! adapter (pagination arithmetic, selector-based extraction, empty-result
//! detection).

pub mod cache;
pub mod engines;
pub mod results;
pub mod text;
