//! Tests of the text utilities and of the result record.

use websurfx::results::aggregation_models::SearchResult;
use websurfx::text::{trim, u64_to_string};

#[test]
fn trim_removes_surrounding_whitespace() {
    assert_eq!(trim("  hello world  "), "hello world");
    assert_eq!(trim("\t\n hello \r\n"), "hello");
    assert_eq!(trim("no-edges"), "no-edges");
}

#[test]
fn trim_keeps_inner_whitespace() {
    assert_eq!(trim("  a  b  "), "a  b");
}

#[test]
fn trim_of_blank_text_is_empty() {
    assert_eq!(trim(""), "");
    assert_eq!(trim("   "), "");
    assert_eq!(trim("\u{00A0}\u{2009}"), "");
}

#[test]
fn trim_handles_unicode_whitespace() {
    assert_eq!(trim("\u{00A0}caf\u{00E9}\u{3000}"), "caf\u{00E9}");
}

#[test]
fn decimal_rendering_is_exact() {
    assert_eq!(u64_to_string(0), "0");
    assert_eq!(u64_to_string(7), "7");
    assert_eq!(u64_to_string(30), "30");
    assert_eq!(u64_to_string(91), "91");
    assert_eq!(u64_to_string(18446744073709551615), "18446744073709551615");
}

#[test]
fn search_result_construction() {
    let result = SearchResult::new(
        "Example Domain",
        "https://www.example.com",
        "An illustrative snippet.",
        &["duckduckgo", "searx"],
    );
    assert_eq!(result.title, "Example Domain");
    assert_eq!(result.url, "https://www.example.com");
    assert_eq!(result.description, "An illustrative snippet.");
    assert_eq!(
        result.engines,
        vec![String::from("duckduckgo"), String::from("searx")]
    );
}
