//! Removal of tracking parameters from shared links.
//!
//! The url crate parses and rebuilds the url itself; which query pairs are
//! kept, and how the kept pairs are joined back into a query string, is
//! decided by the verified functions here.
use vstd::prelude::*;
use vstd::string::{StrSliceExecFns, StringExecFns};
use url::Url;

verus! {

#[verifier::external_type_specification]
#[verifier::external_body]
pub struct ExUrl(Url);

/// The pattern `p` occurs in `s` starting at position `i`.
pub open spec fn matches_at(s: Seq<char>, p: Seq<char>, i: int) -> bool {
    0 <= i && i + p.len() <= s.len() && forall|k: int| 0 <= k < p.len() ==> s[i + k] == p[k]
}

/// The pattern `p` occurs somewhere in `s`.
pub open spec fn contains_seq(s: Seq<char>, p: Seq<char>) -> bool {
    exists|i: int| matches_at(s, p, i)
}

/// `s` begins with the pattern `p`.
pub open spec fn starts_with_seq(s: Seq<char>, p: Seq<char>) -> bool {
    matches_at(s, p, 0)
}

/// `s` ends with the pattern `p`.
pub open spec fn ends_with_seq(s: Seq<char>, p: Seq<char>) -> bool {
    matches_at(s, p, s.len() - p.len())
}

/// A query key that carries click-tracking information and is dropped when a
/// url is cleaned: `utm_source` at the start, one of the utm, gclid, gclsrc or
/// dclid markers anywhere, or `fbclid` at the end.
pub open spec fn is_tracking_key(k: Seq<char>) -> bool {
    ||| starts_with_seq(k, "utm_source"@)
    ||| contains_seq(k, "utm_medium"@)
    ||| contains_seq(k, "utm_campaign"@)
    ||| contains_seq(k, "utm_term"@)
    ||| contains_seq(k, "utm_content"@)
    ||| contains_seq(k, "gclid"@)
    ||| contains_seq(k, "gclsrc"@)
    ||| contains_seq(k, "dclid"@)
    ||| ends_with_seq(k, "fbclid"@)
}

/// The kept pairs joined back into a query string: `key=value` pairs
/// separated by `&`.
pub open spec fn query_string_of(ps: Seq<(String, String)>) -> Seq<char>
    decreases ps.len(),
{
    if ps.len() == 0 {
        Seq::empty()
    } else if ps.len() == 1 {
        ps[0].0@ + "="@ + ps[0].1@
    } else {
        query_string_of(ps.drop_last()) + "&"@ + ps.last().0@ + "="@ + ps.last().1@
    }
}

fn matches_prefix_at(s: &str, p: &str, i: usize) -> (r: bool)
    requires
        i + p@.len() <= s@.len(),
    ensures
        r == matches_at(s@, p@, i as int),
{
    let n = s.unicode_len();
    let m = p.unicode_len();
    let mut k: usize = 0;
    while k < m
        invariant
            n == s@.len(),
            i + m <= n,
            m == p@.len(),
            k <= m,
            forall|t: int| 0 <= t < k ==> s@[i + t] == p@[t],
        decreases m - k,
    {
        if s.get_char(i + k) != p.get_char(k) {
            assert(s@[i + k] != p@[k as int]);
            return false;
        }
        k += 1;
    }
    true
}

/// Whether the pattern `p` occurs somewhere in `s`.
pub fn str_contains(s: &str, p: &str) -> (r: bool)
    ensures
        r == contains_seq(s@, p@),
{
    let n = s.unicode_len();
    let m = p.unicode_len();
    if m > n {
        return false;
    }
    let mut i: usize = 0;
    while i <= n - m
        invariant
            n == s@.len(),
            m == p@.len(),
            m <= n,
            i <= n - m + 1,
            forall|t: int| 0 <= t < i ==> !matches_at(s@, p@, t),
        decreases n - m - i + 1,
    {
        if matches_prefix_at(s, p, i) {
            return true;
        }
        i += 1;
    }
    false
}

/// Whether `s` begins with the pattern `p`.
pub fn str_starts_with(s: &str, p: &str) -> (r: bool)
    ensures
        r == starts_with_seq(s@, p@),
{
    let n = s.unicode_len();
    let m = p.unicode_len();
    if m > n {
        return false;
    }
    matches_prefix_at(s, p, 0)
}

/// Whether `s` ends with the pattern `p`.
pub fn str_ends_with(s: &str, p: &str) -> (r: bool)
    ensures
        r == ends_with_seq(s@, p@),
{
    let n = s.unicode_len();
    let m = p.unicode_len();
    if m > n {
        return false;
    }
    matches_prefix_at(s, p, n - m)
}

/// Whether a query key is one of the tracking keys a cleaned url drops.
pub fn key_is_tracking(key: &str) -> (r: bool)
    ensures
        r == is_tracking_key(key@),
{
    str_starts_with(key, "utm_source") || str_contains(key, "utm_medium") || str_contains(
        key,
        "utm_campaign",
    ) || str_contains(key, "utm_term") || str_contains(key, "utm_content") || str_contains(
        key,
        "gclid",
    ) || str_contains(key, "gclsrc") || str_contains(key, "dclid") || str_ends_with(key, "fbclid")
}

/// Keeps exactly the query pairs whose key is not a tracking key, in order.
pub fn filter_tracking_params(pairs: &Vec<(String, String)>) -> (kept: Vec<(String, String)>)
    ensures
        kept@ == pairs@.filter(|p: (String, String)| !is_tracking_key(p.0@)),
{
    let ghost pred = |p: (String, String)| !is_tracking_key(p.0@);
    let mut kept: Vec<(String, String)> = Vec::new();
    let mut i: usize = 0;
    while i < pairs.len()
        invariant
            i <= pairs@.len(),
            kept@ == pairs@.take(i as int).filter(pred),
            pred == (|p: (String, String)| !is_tracking_key(p.0@)),
        decreases pairs@.len() - i,
    {
        let pair = &pairs[i];
        if !key_is_tracking(pair.0.as_str()) {
            kept.push((pair.0.clone(), pair.1.clone()));
        }
        proof {
            reveal(Seq::filter);
            assert(pairs@.take(i + 1).drop_last() =~= pairs@.take(i as int));
            assert(pairs@.take(i + 1).last() == pairs@[i as int]);
        }
        i += 1;
    }
    proof {
        assert(pairs@.take(pairs@.len() as int) =~= pairs@);
    }
    kept
}

/// Joins query pairs back into a single query string, `key=value` pairs
/// separated by `&`.
pub fn build_query_string(pairs: &Vec<(String, String)>) -> (q: String)
    ensures
        q@ == query_string_of(pairs@),
{
    let mut q = String::new();
    let mut i: usize = 0;
    while i < pairs.len()
        invariant
            i <= pairs@.len(),
            q@ == query_string_of(pairs@.take(i as int)),
        decreases pairs@.len() - i,
    {
        if i > 0 {
            q.append("&");
        }
        let pair = &pairs[i];
        q.append(pair.0.as_str());
        q.append("=");
        q.append(pair.1.as_str());
        proof {
            assert(pairs@.take(i + 1).drop_last() =~= pairs@.take(i as int));
            assert(pairs@.take(i + 1).last() == pairs@[i as int]);
            assert(q@ == query_string_of(pairs@.take(i + 1)));
        }
        i += 1;
    }
    proof {
        assert(pairs@.take(pairs@.len() as int) =~= pairs@);
    }
    q
}

/// Whether a url carries a query string, as url::Url::query reports it.
pub uninterp spec fn url_has_query_of(u: Url) -> bool;

/// The query's key-value pairs, in order and percent-decoded, as
/// url::Url::query_pairs yields them.
pub uninterp spec fn url_query_pairs_of(u: Url) -> Seq<(String, String)>;

/// The url that url::Url::set_query leaves when the query is replaced by the
/// given string.
pub uninterp spec fn url_with_query_of(u: Url, q: Seq<char>) -> Url;

/// Relies on url::Url::query: whether the url carries a query string; a pure
/// function of the url.
#[verifier::external_body]
fn url_has_query(u: &Url) -> (r: bool)
    ensures
        r == url_has_query_of(*u),
{
    u.query().is_some()
}

/// Relies on url::Url::query_pairs: the query's key-value pairs, in order,
/// percent-decoded; a pure function of the url.
#[verifier::external_body]
fn url_query_pairs(u: &Url) -> (r: Vec<(String, String)>)
    ensures
        r@ == url_query_pairs_of(*u),
{
    u.query_pairs().map(|q| (q.0.into_owned(), q.1.into_owned())).collect()
}

/// Relies on url::Url::clone: the clone equals the url it was taken from.
#[verifier::external_body]
fn clone_url(u: &Url) -> (r: Url)
    ensures
        r == *u,
{
    u.clone()
}

/// Relies on url::Url::set_query, applied to a clone of the url: the result
/// is a pure function of the url and of the new query string.
#[verifier::external_body]
fn url_with_query(u: &Url, query: &str) -> (r: Url)
    ensures
        r == url_with_query_of(*u, query@),
{
    let mut out = u.clone();
    out.set_query(Some(query));
    out
}

/// Returns the url with its tracking query parameters removed: a url without
/// a query comes back unchanged, and one with a query keeps everything but
/// its query, which is rebuilt from exactly the non-tracking pairs, in order.
pub fn clean_url_params(url: &Url) -> (r: Url)
    ensures
        !url_has_query_of(*url) ==> r == *url,
        url_has_query_of(*url) ==> r == url_with_query_of(
            *url,
            query_string_of(
                url_query_pairs_of(*url).filter(|p: (String, String)| !is_tracking_key(p.0@)),
            ),
        ),
{
    if url_has_query(url) {
        let pairs = url_query_pairs(url);
        let kept = filter_tracking_params(&pairs);
        let new_query = build_query_string(&kept);
        url_with_query(url, new_query.as_str())
    } else {
        clone_url(url)
    }
}

} // verus!
