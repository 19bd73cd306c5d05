//! The DuckDuckGo adapter: request-URL construction with the upstream's
//! pagination quirk, selector-based extraction of result records out of a
//! fetched response document, and empty-result detection.

use vstd::prelude::*;
use vstd::string::*;

use crate::engines::engine_models::{EngineError, SearchEngine};
use crate::results::aggregation_models::{
    distinct_urls, results_as_map, SearchResult, SearchResultView,
};
use crate::text::{dec_of, trim, trim_spec, u64_to_string};

verus! {

/// Whether scraper's `Selector::parse` accepts a CSS selector.
pub uninterp spec fn selector_valid(selector: Seq<char>) -> bool;

/// The inner HTML of each element matched by a CSS selector in a document
/// (`fragment == false`) or in a re-parsed fragment (`fragment == true`),
/// in document order.
pub uninterp spec fn selected_inner(html: Seq<char>, selector: Seq<char>, fragment: bool) -> Seq<
    Seq<char>,
>;

/// Relies on scraper's `Selector::parse`: whether a selector compiles
/// depends on the selector text alone.
#[verifier::external_body]
fn selector_is_valid(selector: &str) -> (r: bool)
    ensures
        r == selector_valid(selector@),
{
    scraper::Selector::parse(selector).is_ok()
}

/// Relies on scraper's `Html::parse_document` / `Html::parse_fragment`,
/// `Html::select` and `ElementRef::inner_html`: what a selector matches in
/// a parsed document, and each match's inner HTML, are functions of the
/// document text and the selector alone, yielded in document order.
#[verifier::external_body]
fn select_inner_htmls(html: &str, selector: &str, fragment: bool) -> (r: Option<Vec<String>>)
    ensures
        r is Some <==> selector_valid(selector@),
        (r matches Some(v) ==> v@.map_values(|s: String| s@) == selected_inner(
            html@,
            selector@,
            fragment,
        )),
{
    let selector = match scraper::Selector::parse(selector) {
        Ok(s) => s,
        Err(_) => return None,
    };
    let document = if fragment {
        scraper::Html::parse_fragment(html)
    } else {
        scraper::Html::parse_document(html)
    };
    Some(document.select(&selector).map(|element| element.inner_html()).collect())
}

/// All five extraction patterns of this adapter compile.
pub open spec fn selectors_ok() -> bool {
    &&& selector_valid(".no-results"@)
    &&& selector_valid(".result"@)
    &&& selector_valid(".result__a"@)
    &&& selector_valid(".result__url"@)
    &&& selector_valid(".result__snippet"@)
}

/// The first extraction pattern, in the order they are compiled, that
/// scraper refuses — meaningful only when not all of them compile.
pub open spec fn first_invalid_selector() -> Seq<char> {
    if !selector_valid(".no-results"@) {
        ".no-results"@
    } else if !selector_valid(".result"@) {
        ".result"@
    } else if !selector_valid(".result__a"@) {
        ".result__a"@
    } else if !selector_valid(".result__url"@) {
        ".result__url"@
    } else {
        ".result__snippet"@
    }
}

/// The upstream's "no results" marker element is present in the document.
pub open spec fn no_results_marker(html: Seq<char>) -> bool {
    selected_inner(html, ".no-results"@, false).len() > 0
}

/// The record extracted from one result container, or `None` for a
/// malformed container (a required sub-element missing), which is skipped.
/// Title and snippet are the trimmed inner text of their sub-elements; the
/// displayed URL is host-only upstream, so its trimmed text is prefixed
/// with the fixed scheme.
pub open spec fn fragment_result(container: Seq<char>) -> Option<SearchResultView> {
    let titles = selected_inner(container, ".result__a"@, true);
    let urls = selected_inner(container, ".result__url"@, true);
    let snippets = selected_inner(container, ".result__snippet"@, true);
    if titles.len() > 0 && urls.len() > 0 && snippets.len() > 0 {
        Some(
            SearchResultView {
                title: trim_spec(titles[0]),
                url: "https://"@ + trim_spec(urls[0]),
                description: trim_spec(snippets[0]),
                engines: seq!["duckduckgo"@],
            },
        )
    } else {
        None
    }
}

/// The mapping extracted from the first `n` result containers, keyed by
/// url, later containers overwriting earlier ones with the same url.
pub open spec fn results_map_prefix(containers: Seq<Seq<char>>, n: int) -> Map<
    Seq<char>,
    SearchResultView,
>
    decreases n,
{
    if n <= 0 {
        Map::empty()
    } else {
        let m = results_map_prefix(containers, n - 1);
        match fragment_result(containers[n - 1]) {
            Some(r) => m.insert(r.url, r),
            None => m,
        }
    }
}

/// The full mapping this adapter extracts from one response document.
pub open spec fn duckduckgo_results(html: Seq<char>) -> Map<Seq<char>, SearchResultView> {
    let containers = selected_inner(html, ".result"@, false);
    results_map_prefix(containers, containers.len() as int)
}

/// The offset pair written into the request URL for pages past the first:
/// the upstream expects `ceil(page / 2) * 30` and that value plus one.
pub open spec fn page_offset_spec(page: u32) -> int {
    (page as int / 2 + page as int % 2) * 30
}

/// The request URL of one fetch: pages 0 and 1 are the first-page form
/// with empty offset parameters; later pages carry the offset pair.
pub open spec fn search_url_spec(query: Seq<char>, page: u32) -> Seq<char> {
    if page == 0 || page == 1 {
        "https://html.duckduckgo.com/html/?q="@ + query + "&s=&dc=&v=1&o=json&api=/d.js"@
    } else {
        "https://duckduckgo.com/html/?q="@ + query + "&s="@ + dec_of(page_offset_spec(page) as nat)
            + "&dc="@ + dec_of((page_offset_spec(page) + 1) as nat) + "&v=1&o=json&api=/d.js"@
    }
}

/// A new DuckDuckGo engine type, implementing the `SearchEngine`
/// capability so that adapters for different backends can stand side by
/// side.
pub struct DuckDuckGo;

/// The offset parameters of a page, or `None` for the first-page URL form
/// (pages 0 and 1), which carries no offsets.
pub fn page_offsets(page: u32) -> (r: Option<(u64, u64)>)
    ensures
        page == 0 || page == 1 ==> r is None,
        page >= 2 ==> (r matches Some(p) && p.0 as int == page_offset_spec(page) && p.1 as int
            == page_offset_spec(page) + 1),
{
    if page == 0 || page == 1 {
        None
    } else {
        let n: u64 = (page as u64) / 2 + (page as u64) % 2;
        Some((n * 30, n * 30 + 1))
    }
}

impl DuckDuckGo {
    /// Build the upstream request URL for one page of a query.
    pub fn build_search_url(&self, query: &str, page: u32) -> (r: String)
        ensures
            r@ == search_url_spec(query@, page),
    {
        match page_offsets(page) {
            None => {
                let mut url = String::from_str("https://html.duckduckgo.com/html/?q=");
                url.append(query);
                url.append("&s=&dc=&v=1&o=json&api=/d.js");
                proof {
                    assert(url@ =~= search_url_spec(query@, page));
                }
                url
            },
            Some((start, additional)) => {
                let mut url = String::from_str("https://duckduckgo.com/html/?q=");
                url.append(query);
                url.append("&s=");
                url.append(u64_to_string(start).as_str());
                url.append("&dc=");
                url.append(u64_to_string(additional).as_str());
                url.append("&v=1&o=json&api=/d.js");
                proof {
                    assert(url@ =~= search_url_spec(query@, page));
                }
                url
            },
        }
    }

    /// Scrape one fetched response document into the mapping of results.
    ///
    /// A compiled-pattern failure is an `UnexpectedError` carrying the
    /// offending pattern; the upstream's "no results" marker is the
    /// terminal `EmptyResultSet`; otherwise every well-formed result
    /// container contributes one record, keyed by url with
    /// last-write-wins on duplicates, and malformed containers are
    /// skipped.
    pub fn parse_page(&self, document: &str) -> (r: Result<Vec<SearchResult>, EngineError>)
        ensures
            (r matches Err(e) && e matches EngineError::UnexpectedError(_)) <==> !selectors_ok(),
            r matches Err(e) ==> (e matches EngineError::UnexpectedError(m) ==> m@ == (
            "invalid CSS selector: "@ + first_invalid_selector())),
            selectors_ok() ==> ((r matches Err(e) && e is EmptyResultSet) <==> no_results_marker(
                document@,
            )),
            (r matches Ok(v)) <==> (selectors_ok() && !no_results_marker(document@)),
            r matches Ok(v) ==> {
                &&& distinct_urls(v@)
                &&& results_as_map(v@) == duckduckgo_results(document@)
                &&& forall|k: int| 0 <= k < v@.len() ==> (#[trigger] v@[k])@.wf()
            },
    {
        if !selector_is_valid(".no-results") {
            return Err(EngineError::UnexpectedError(invalid_selector_message(".no-results")));
        }
        if !selector_is_valid(".result") {
            return Err(EngineError::UnexpectedError(invalid_selector_message(".result")));
        }
        if !selector_is_valid(".result__a") {
            return Err(EngineError::UnexpectedError(invalid_selector_message(".result__a")));
        }
        if !selector_is_valid(".result__url") {
            return Err(EngineError::UnexpectedError(invalid_selector_message(".result__url")));
        }
        if !selector_is_valid(".result__snippet") {
            return Err(EngineError::UnexpectedError(invalid_selector_message(".result__snippet")));
        }
        let markers = match select_inner_htmls(document, ".no-results", false) {
            Some(v) => v,
            None => {
                proof {
                    assert(false);
                }
                Vec::new()
            },
        };
        if markers.len() > 0 {
            return Err(EngineError::EmptyResultSet);
        }
        let containers = match select_inner_htmls(document, ".result", false) {
            Some(v) => v,
            None => {
                proof {
                    assert(false);
                }
                Vec::new()
            },
        };
        let ghost cs = selected_inner(document@, ".result"@, false);
        let mut results_vec: Vec<SearchResult> = Vec::new();
        let n = containers.len();
        let mut i: usize = 0;
        while i < n
            invariant
                selectors_ok(),
                !no_results_marker(document@),
                cs == selected_inner(document@, ".result"@, false),
                containers@.map_values(|s: String| s@) == cs,
                n == containers@.len(),
                0 <= i <= n,
                distinct_urls(results_vec@),
                forall|k: int| 0 <= k < results_vec@.len() ==> (#[trigger] results_vec@[k])@.wf(),
                results_as_map(results_vec@) == results_map_prefix(cs, i as int),
            decreases n - i,
        {
            let container: &String = &containers[i];
            proof {
                assert(container@ == cs[i as int]);
            }
            let titles = match select_inner_htmls(container.as_str(), ".result__a", true) {
                Some(v) => v,
                None => {
                    proof {
                        assert(false);
                    }
                    Vec::new()
                },
            };
            let urls = match select_inner_htmls(container.as_str(), ".result__url", true) {
                Some(v) => v,
                None => {
                    proof {
                        assert(false);
                    }
                    Vec::new()
                },
            };
            let snippets = match select_inner_htmls(container.as_str(), ".result__snippet", true) {
                Some(v) => v,
                None => {
                    proof {
                        assert(false);
                    }
                    Vec::new()
                },
            };
            if titles.len() > 0 && urls.len() > 0 && snippets.len() > 0 {
                let title = trim(titles[0].as_str());
                let mut url = String::from_str("https://");
                url.append(trim(urls[0].as_str()).as_str());
                let description = trim(snippets[0].as_str());
                let mut engines: Vec<String> = Vec::new();
                engines.push(String::from_str("duckduckgo"));
                let result = SearchResult { title, url, description, engines };
                let ghost resultg = result;
                proof {
                    reveal_strlit("https://");
                    assert(result@.wf());
                    assert(result@.engines =~= seq!["duckduckgo"@]);
                    assert(titles@.map_values(|s: String| s@)[0] == titles@[0]@);
                    assert(urls@.map_values(|s: String| s@)[0] == urls@[0]@);
                    assert(snippets@.map_values(|s: String| s@)[0] == snippets@[0]@);
                    assert(fragment_result(cs[i as int]) matches Some(fr) && fr == result@);
                }
                let m = results_vec.len();
                let mut found: bool = false;
                let mut idx: usize = 0;
                let mut j: usize = 0;
                while j < m
                    invariant
                        m == results_vec@.len(),
                        0 <= j <= m,
                        !found ==> forall|k: int|
                            0 <= k < j ==> results_vec@[k].url@ != result.url@,
                        found ==> idx < m && results_vec@[idx as int].url@ == result.url@,
                    decreases m - j,
                {
                    if !found && results_vec[j].url == result.url {
                        found = true;
                        idx = j;
                    }
                    j = j + 1;
                }
                let ghost pre = results_vec@;
                let ghost resv = resultg@;
                if found {
                    proof {
                        lemma_results_map_update(pre, idx as int, resultg);
                    }
                    let slot = vstd::std_specs::vec::vec_index_mut(&mut results_vec, idx);
                    *slot = result;
                    proof {
                        assert(results_vec@ == pre.update(idx as int, resultg));
                        assert forall|a: int, b: int|
                            0 <= a < b < results_vec@.len() implies results_vec@[a].url@
                            != results_vec@[b].url@ by {
                            assert(pre[a].url@ != pre[b].url@);
                        }
                    }
                } else {
                    results_vec.push(result);
                    proof {
                        lemma_results_map_push(pre, resultg);
                        assert forall|a: int, b: int|
                            0 <= a < b < results_vec@.len() implies results_vec@[a].url@
                            != results_vec@[b].url@ by {
                            if b < pre.len() {
                                assert(pre[a].url@ != pre[b].url@);
                            } else {
                                assert(results_vec@[b] == resultg);
                                assert(pre[a].url@ != resv.url);
                            }
                        }
                    }
                }
                proof {
                    assert(results_as_map(results_vec@) == results_map_prefix(cs, i as int).insert(
                        resv.url,
                        resv,
                    ));
                    assert(results_as_map(results_vec@) == results_map_prefix(cs, i as int + 1));
                }
            } else {
                proof {
                    assert(fragment_result(cs[i as int]) is None);
                    assert(results_as_map(results_vec@) == results_map_prefix(cs, i as int + 1));
                }
            }
            i = i + 1;
        }
        proof {
            assert(results_as_map(results_vec@) == duckduckgo_results(document@));
        }
        Ok(results_vec)
    }
}

impl SearchEngine for DuckDuckGo {
    fn search_url(&self, query: &str, page: u32) -> (r: String) {
        self.build_search_url(query, page)
    }

    fn results(&self, document: &str) -> (r: Result<Vec<SearchResult>, EngineError>) {
        self.parse_page(document)
    }
}

/// The diagnostic carried by an `UnexpectedError` for a pattern that did
/// not compile.
fn invalid_selector_message(pattern: &str) -> (r: String)
    ensures
        r@ == "invalid CSS selector: "@ + pattern@,
{
    let mut message = String::from_str("invalid CSS selector: ");
    message.append(pattern);
    message
}

/// Appending a record whose url is new extends the mapping at that url.
proof fn lemma_results_map_push(rs: Seq<SearchResult>, x: SearchResult)
    ensures
        results_as_map(rs.push(x)) == results_as_map(rs).insert(x@.url, x@),
{
    assert(rs.push(x).drop_last() =~= rs);
    assert(rs.push(x).last() == x);
}

/// Overwriting the record that already holds a url updates the mapping at
/// that url.
proof fn lemma_results_map_update(rs: Seq<SearchResult>, j: int, x: SearchResult)
    requires
        0 <= j < rs.len(),
        distinct_urls(rs),
        rs[j].url@ == x.url@,
    ensures
        results_as_map(rs.update(j, x)) == results_as_map(rs).insert(x@.url, x@),
    decreases rs.len(),
{
    let rsu = rs.update(j, x);
    if j == rs.len() - 1 {
        assert(rsu.drop_last() =~= rs.drop_last());
        assert(rsu.last() == x);
        assert(results_as_map(rs).insert(x@.url, x@) =~= results_as_map(rs.drop_last()).insert(
            x@.url,
            x@,
        ));
    } else {
        assert(rsu.drop_last() =~= rs.drop_last().update(j, x));
        assert(rsu.last() == rs.last());
        assert(distinct_urls(rs.drop_last()));
        lemma_results_map_update(rs.drop_last(), j, x);
        assert(rs.last().url@ != x.url@);
        assert(results_as_map(rs.drop_last()).insert(x@.url, x@).insert(
            rs.last()@.url,
            rs.last()@,
        ) =~= results_as_map(rs.drop_last()).insert(rs.last()@.url, rs.last()@).insert(
            x@.url,
            x@,
        ));
    }
}

} // verus!
