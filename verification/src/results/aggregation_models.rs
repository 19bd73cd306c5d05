//! The unit record of aggregated search results: one scraped result with
//! its title, canonical URL, snippet and the backends that produced it.

use vstd::prelude::*;
use vstd::string::*;
use vstd::slice::*;

verus! {

/// Mathematical shape of one search result: its fields as sequences.
pub struct SearchResultView {
    pub title: Seq<char>,
    pub url: Seq<char>,
    pub description: Seq<char>,
    pub engines: Seq<Seq<char>>,
}

impl SearchResultView {
    /// The record's invariant: its url, the canonical identity under
    /// which results are merged across backends, is non-empty.
    pub open spec fn wf(&self) -> bool {
        self.url.len() > 0
    }
}

/// One result scraped by a backend adapter.  The `url` is the canonical
/// identity of the result: two results with equal URLs are the same
/// logical result, and every mapping an adapter returns is keyed by it.
pub struct SearchResult {
    pub title: String,
    pub url: String,
    pub description: String,
    pub engines: Vec<String>,
}

impl View for SearchResult {
    type V = SearchResultView;

    open spec fn view(&self) -> SearchResultView {
        SearchResultView {
            title: self.title@,
            url: self.url@,
            description: self.description@,
            engines: self.engines@.map_values(|e: String| e@),
        }
    }
}

impl SearchResult {
    /// Construct one result record, tagging the backends it came from.
    pub fn new(title: &str, url: &str, description: &str, engines: &[&str]) -> (r: Self)
        ensures
            r@.title == title@,
            r@.url == url@,
            r@.description == description@,
            r@.engines == engines@.map_values(|e: &str| e@),
    {
        let mut engine_names: Vec<String> = Vec::new();
        let n = engines.len();
        let mut i: usize = 0;
        while i < n
            invariant
                n == engines@.len(),
                0 <= i <= n,
                engine_names@.len() == i,
                forall|j: int| 0 <= j < i ==> engine_names@[j]@ == engines@[j]@,
            decreases n - i,
        {
            let e: &&str = slice_index_get(engines, i);
            engine_names.push(String::from_str(*e));
            i = i + 1;
        }
        let r = SearchResult {
            title: String::from_str(title),
            url: String::from_str(url),
            description: String::from_str(description),
            engines: engine_names,
        };
        proof {
            assert(r@.engines =~= engines@.map_values(|e: &str| e@));
        }
        r
    }
}

/// The urls of a result sequence are pairwise distinct: the sequence is a
/// mapping keyed by url.
pub open spec fn distinct_urls(rs: Seq<SearchResult>) -> bool {
    forall|i: int, j: int| 0 <= i < j < rs.len() ==> rs[i].url@ != rs[j].url@
}

/// The mapping a result sequence stands for: each record keyed by its url,
/// later records shadowing earlier ones.
pub open spec fn results_as_map(rs: Seq<SearchResult>) -> Map<Seq<char>, SearchResultView>
    decreases rs.len(),
{
    if rs.len() == 0 {
        Map::empty()
    } else {
        results_as_map(rs.drop_last()).insert(rs.last()@.url, rs.last()@)
    }
}

} // verus!
