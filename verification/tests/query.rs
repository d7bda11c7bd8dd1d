use github_codesearch::query::SearchQuery;

#[test]
fn test_parse_search_term() {
    let query = "foo bar language:rust";
    let term = SearchQuery::from_query_string(query).unwrap();
    assert_eq!(term.search_term, "foo bar");
    assert_eq!(term.restrictions.get("language").unwrap(), "rust");
}

#[test]
fn test_parse_search_term_multiple_restrictions() {
    let query = "foo bar language:rust user:alvin";
    let term = SearchQuery::from_query_string(query).unwrap();
    assert_eq!(term.search_term, "foo bar");
    assert_eq!(term.restrictions.get("language").unwrap(), "rust");
    assert_eq!(term.restrictions.get("user").unwrap(), "alvin");
}

#[test]
fn no_marker_keeps_whole_trimmed_input() {
    let term = SearchQuery::from_query_string("foo bar").unwrap();
    assert_eq!(term.search_term, "foo bar");
    assert!(term.restrictions.is_empty());

    let spaced = SearchQuery::from_query_string("  foo bar \t").unwrap();
    assert_eq!(spaced.search_term, "foo bar");
    assert!(spaced.restrictions.is_empty());
}

#[test]
fn empty_query_parses_to_empty_term() {
    let term = SearchQuery::from_query_string("").unwrap();
    assert_eq!(term.search_term, "");
    assert!(term.restrictions.is_empty());
}

#[test]
fn query_starting_with_restriction_has_empty_term() {
    let term = SearchQuery::from_query_string("language:rust").unwrap();
    assert_eq!(term.search_term, "");
    assert_eq!(term.restrictions.get("language").unwrap(), "rust");
}

#[test]
fn restriction_value_runs_to_whitespace() {
    let term = SearchQuery::from_query_string("a:b:c next").unwrap();
    assert_eq!(term.search_term, "");
    assert_eq!(term.restrictions.get("a").unwrap(), "b:c");
    assert!(term.restrictions.get("next").is_none());
}

#[test]
fn later_duplicate_key_overwrites_earlier() {
    let term = SearchQuery::from_query_string("foo k:1 k:2").unwrap();
    assert_eq!(term.search_term, "foo");
    assert_eq!(term.restrictions.get("k").unwrap(), "2");
}

#[test]
fn colon_without_value_is_no_restriction() {
    let term = SearchQuery::from_query_string("foo key: ").unwrap();
    assert_eq!(term.search_term, "foo");
    assert!(term.restrictions.is_empty());
}

#[test]
fn marker_key_is_the_identifier_run_before_the_colon() {
    let term = SearchQuery::from_query_string("x y:1").unwrap();
    assert_eq!(term.search_term, "x");
    assert_eq!(term.restrictions.get("y").unwrap(), "1");
}

#[test]
fn non_ident_characters_bound_the_key() {
    let term = SearchQuery::from_query_string("h\u{e9}llo:x").unwrap();
    assert_eq!(term.search_term, "h\u{e9}");
    assert_eq!(term.restrictions.get("llo").unwrap(), "x");
}
