//! Tests of the DuckDuckGo adapter: pagination arithmetic, request-URL
//! construction, extraction from fixture documents, empty-result
//! detection, and mapping uniqueness.

use websurfx::engines::duckduckgo::{page_offsets, DuckDuckGo};
use websurfx::engines::engine_models::{EngineError, SearchEngine};

#[test]
fn pagination_offsets_for_first_pages() {
    assert_eq!(page_offsets(0), None);
    assert_eq!(page_offsets(1), None);
}

#[test]
fn pagination_offsets_for_later_pages() {
    assert_eq!(page_offsets(2), Some((30, 31)));
    assert_eq!(page_offsets(3), Some((60, 61)));
    assert_eq!(page_offsets(4), Some((60, 61)));
    assert_eq!(page_offsets(5), Some((90, 91)));
}

#[test]
fn search_url_for_first_page() {
    let engine = DuckDuckGo;
    assert_eq!(
        engine.build_search_url("rust", 0),
        "https://html.duckduckgo.com/html/?q=rust&s=&dc=&v=1&o=json&api=/d.js"
    );
    assert_eq!(
        engine.build_search_url("rust", 1),
        "https://html.duckduckgo.com/html/?q=rust&s=&dc=&v=1&o=json&api=/d.js"
    );
}

#[test]
fn search_url_for_later_pages() {
    let engine = DuckDuckGo;
    assert_eq!(
        engine.build_search_url("rust", 2),
        "https://duckduckgo.com/html/?q=rust&s=30&dc=31&v=1&o=json&api=/d.js"
    );
    assert_eq!(
        engine.build_search_url("rust", 5),
        "https://duckduckgo.com/html/?q=rust&s=90&dc=91&v=1&o=json&api=/d.js"
    );
}

fn two_result_fixture() -> String {
    String::from(
        "<html><body>\
         <div class=\"result\">\
           <a class=\"result__a\">  First Title  </a>\
           <span class=\"result__url\">  www.example.com/one  </span>\
           <span class=\"result__snippet\">  first snippet  </span>\
         </div>\
         <div class=\"result\">\
           <a class=\"result__a\">Second Title</a>\
           <span class=\"result__url\">www.example.org/two</span>\
           <span class=\"result__snippet\">second snippet</span>\
         </div>\
         </body></html>",
    )
}

#[test]
fn extraction_from_fixture_document() {
    let engine = DuckDuckGo;
    let results = engine.parse_page(&two_result_fixture()).expect("two results expected");
    assert_eq!(results.len(), 2);

    assert_eq!(results[0].title, "First Title");
    assert_eq!(results[0].url, "https://www.example.com/one");
    assert_eq!(results[0].description, "first snippet");
    assert_eq!(results[0].engines, vec![String::from("duckduckgo")]);

    assert_eq!(results[1].title, "Second Title");
    assert_eq!(results[1].url, "https://www.example.org/two");
    assert_eq!(results[1].description, "second snippet");
    assert_eq!(results[1].engines, vec![String::from("duckduckgo")]);
}

#[test]
fn extraction_through_the_capability_contract() {
    let engine = DuckDuckGo;
    let results = engine.results(&two_result_fixture()).expect("two results expected");
    assert_eq!(results.len(), 2);
    assert_ne!(results[0].url, results[1].url);
}

#[test]
fn empty_result_marker_is_terminal() {
    let engine = DuckDuckGo;
    let document = "<html><body>\
                    <div class=\"no-results\">No results.</div>\
                    <div class=\"result\">\
                      <a class=\"result__a\">Title</a>\
                      <span class=\"result__url\">www.example.com</span>\
                      <span class=\"result__snippet\">snippet</span>\
                    </div>\
                    </body></html>";
    let outcome = engine.parse_page(document);
    assert!(matches!(outcome, Err(EngineError::EmptyResultSet)));
}

#[test]
fn document_without_containers_yields_empty_mapping() {
    let engine = DuckDuckGo;
    let results = engine.parse_page("<html><body><p>nothing here</p></body></html>").unwrap();
    assert_eq!(results.len(), 0);
}

#[test]
fn duplicate_urls_collapse_to_one_entry() {
    let engine = DuckDuckGo;
    let document = "<html><body>\
                    <div class=\"result\">\
                      <a class=\"result__a\">Stale Title</a>\
                      <span class=\"result__url\">www.example.com/same</span>\
                      <span class=\"result__snippet\">stale snippet</span>\
                    </div>\
                    <div class=\"result\">\
                      <a class=\"result__a\">Fresh Title</a>\
                      <span class=\"result__url\">www.example.com/same</span>\
                      <span class=\"result__snippet\">fresh snippet</span>\
                    </div>\
                    </body></html>";
    let results = engine.parse_page(document).expect("one merged result expected");
    assert_eq!(results.len(), 1);
    assert_eq!(results[0].url, "https://www.example.com/same");
    assert_eq!(results[0].title, "Fresh Title");
    assert_eq!(results[0].description, "fresh snippet");
}

#[test]
fn malformed_container_is_skipped() {
    let engine = DuckDuckGo;
    let document = "<html><body>\
                    <div class=\"result\">\
                      <a class=\"result__a\">No url here</a>\
                      <span class=\"result__snippet\">snippet</span>\
                    </div>\
                    <div class=\"result\">\
                      <a class=\"result__a\">Complete</a>\
                      <span class=\"result__url\">www.example.com</span>\
                      <span class=\"result__snippet\">snippet</span>\
                    </div>\
                    </body></html>";
    let results = engine.parse_page(document).expect("the complete container expected");
    assert_eq!(results.len(), 1);
    assert_eq!(results[0].title, "Complete");
}

#[test]
fn engine_error_messages() {
    assert_eq!(
        EngineError::EmptyResultSet.message(),
        "the upstream search engine returned an empty result set"
    );
    assert_eq!(
        EngineError::RequestError(String::from("timed out")).message(),
        "timed out"
    );
    assert_eq!(
        EngineError::UnexpectedError(String::from("invalid CSS selector: .result")).message(),
        "invalid CSS selector: .result"
    );
}
