use url::Url;
use validation::{build_query_string, clean_url_params, filter_tracking_params, key_is_tracking};

#[test]
fn test_clean_url_params() {
    let url = Url::parse("https://example.com/path/123?utm_content=buffercf3b2&utm_medium=social&username=randomuser&id=123").unwrap();
    let cleaned = clean_url_params(&url);
    let expected = Url::parse("https://example.com/path/123?username=randomuser&id=123").unwrap();
    assert_eq!(expected.to_string(), cleaned.to_string());

    let url = Url::parse("https://example.com/path/123").unwrap();
    let cleaned = clean_url_params(&url);
    assert_eq!(url.to_string(), cleaned.to_string());
}

fn pairs(ps: &[(&str, &str)]) -> Vec<(String, String)> {
    ps.iter().map(|p| (p.0.to_string(), p.1.to_string())).collect()
}

#[test]
fn test_key_is_tracking() {
    assert!(key_is_tracking("utm_source"));
    assert!(key_is_tracking("utm_medium"));
    assert!(key_is_tracking("fbclid"));
    assert!(key_is_tracking("gclid"));
    // `utm_source` is matched at the start only, the others anywhere,
    // `fbclid` at the end only.
    assert!(key_is_tracking("utm_source_x"));
    assert!(!key_is_tracking("xutm_source"));
    assert!(key_is_tracking("xutm_medium"));
    assert!(key_is_tracking("myfbclid"));
    assert!(!key_is_tracking("fbclidx"));
    assert!(!key_is_tracking("username"));
    assert!(!key_is_tracking("id"));
}

#[test]
fn test_filter_tracking_params() {
    let input = pairs(&[("utm_content", "a"), ("username", "u"), ("gclsrc", "g"), ("id", "1")]);
    let kept = filter_tracking_params(&input);
    assert_eq!(kept, pairs(&[("username", "u"), ("id", "1")]));

    let none_tracked = pairs(&[("q", "verus"), ("page", "2")]);
    assert_eq!(filter_tracking_params(&none_tracked), none_tracked);

    let all_tracked = pairs(&[("utm_term", "t"), ("dclid", "d")]);
    assert_eq!(filter_tracking_params(&all_tracked), pairs(&[]));
}

#[test]
fn test_build_query_string() {
    assert_eq!(build_query_string(&pairs(&[])), "");
    assert_eq!(build_query_string(&pairs(&[("a", "1")])), "a=1");
    assert_eq!(build_query_string(&pairs(&[("a", "1"), ("b", "2")])), "a=1&b=2");
}

#[test]
fn test_clean_url_params_all_tracking() {
    // When every pair is a tracking pair the query is rebuilt empty, as the
    // trailing question mark shows.
    let url = Url::parse("https://example.com/x?utm_campaign=c").unwrap();
    let cleaned = clean_url_params(&url);
    assert_eq!(cleaned.to_string(), "https://example.com/x?");
}
