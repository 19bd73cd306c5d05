//! The capability contract of a backend adapter and the errors an adapter
//! can surface.

use vstd::prelude::*;
use vstd::string::*;

use crate::results::aggregation_models::{distinct_urls, SearchResult};

verus! {

/// Failure of one adapter call.
///
/// `EmptyResultSet` is the terminal, non-retryable outcome of a query that
/// legitimately has no matches upstream.  `RequestError` is a
/// network-class failure of the fetch collaborator, carried unmodified as
/// its message.  `UnexpectedError` is an internal construction failure (a
/// bad header map, a bad extraction pattern) and always carries a
/// human-readable cause.
#[derive(Debug)]
pub enum EngineError {
    EmptyResultSet,
    RequestError(String),
    UnexpectedError(String),
}

impl EngineError {
    /// Human-readable description, in place of a `Display` impl.
    pub fn message(&self) -> (r: String)
        ensures
            self is EmptyResultSet ==> r@ == (
            "the upstream search engine returned an empty result set"@),
            self matches EngineError::RequestError(m) ==> r@ == m@,
            self matches EngineError::UnexpectedError(m) ==> r@ == m@,
    {
        match self {
            EngineError::EmptyResultSet => String::from_str(
                "the upstream search engine returned an empty result set",
            ),
            EngineError::RequestError(m) => m.clone(),
            EngineError::UnexpectedError(m) => m.clone(),
        }
    }
}

/// The one capability every backend adapter provides: build the upstream
/// request URL for a page of a query, and turn one fetched response
/// document into the mapping of results.  The network fetch between the
/// two sits outside this contract; every adapter call performs exactly one
/// upstream fetch, and pagination is a new call with a different page.
pub trait SearchEngine {
    /// The upstream URL that one fetch for `query` at `page` requests.
    fn search_url(&self, query: &str, page: u32) -> (r: String);

    /// Scrape the fetched document into result records keyed by url.  The
    /// returned mapping has pairwise distinct urls; no ordering is
    /// promised.
    fn results(&self, document: &str) -> (r: Result<Vec<SearchResult>, EngineError>)
        ensures
            r matches Ok(v) ==> distinct_urls(v@),
    ;
}

} // verus!
