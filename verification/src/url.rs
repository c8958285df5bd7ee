//! URL normalization and query-string assembly.
//!
//! A URL is given an explicit scheme (defaulting to secure transport), and
//! the effective parameter entries are joined into a raw `key=value` query
//! string. By design the key and value are not percent-encoded: the entries
//! are concatenated exactly as the user wrote them.

use vstd::prelude::*;
use crate::strutil::{contains_char, entries_view, has_prefix, is_prefix_of, join_pairs,
    joined_pairs};

verus! {

/// The URL carries an explicit scheme already.
pub open spec fn has_explicit_scheme(u: Seq<char>) -> bool {
    is_prefix_of("http://"@, u) || is_prefix_of("https://"@, u)
}

/// The normalized form of a raw URL: unchanged when it already starts with
/// `http://` or `https://`, prefixed with `https://` otherwise.
pub open spec fn normalized_url(u: Seq<char>) -> Seq<char> {
    if has_explicit_scheme(u) {
        u
    } else {
        "https://"@ + u
    }
}

/// Give the URL an explicit scheme, defaulting to `https://`. The prefix
/// test is case-sensitive and exact; nothing else about the URL is checked
/// or changed.
pub fn ensure_url_protocol(url: &str) -> (r: String)
    ensures
        r@ == normalized_url(url@),
{
    if !has_prefix(url, "http://") && !has_prefix(url, "https://") {
        let mut s = String::new();
        s.append("https://");
        s.append(url);
        proof {
            assert(s@ =~= "https://"@ + url@);
        }
        s
    } else {
        url.to_owned()
    }
}

/// A normalized URL carries an explicit scheme.
pub proof fn lemma_normalized_has_scheme(u: Seq<char>)
    ensures
        has_explicit_scheme(normalized_url(u)),
{
    if !has_explicit_scheme(u) {
        let n = normalized_url(u);
        reveal_strlit("https://");
        assert(n.subrange(0, 8) =~= "https://"@);
    }
}

/// Normalization never stacks schemes: applied twice it gives the same URL
/// as applied once, because the normalized form already carries a scheme.
pub proof fn lemma_normalize_idempotent(u: Seq<char>)
    ensures
        normalized_url(normalized_url(u)) == normalized_url(u),
{
    lemma_normalized_has_scheme(u);
}

/// The serialized query string of an entry sequence: the `key=value`
/// segments joined with `&`, in entry order, duplicate keys kept.
pub open spec fn query_string(es: Seq<(Seq<char>, Seq<char>)>) -> Seq<char> {
    joined_pairs(es, "="@, "&"@)
}

/// A URL with an entry sequence attached as its query: untouched when there
/// are no entries; otherwise the serialized entries follow `&` when the URL
/// already holds a `?`, and `?` when it does not.
pub open spec fn url_with_params(u: Seq<char>, es: Seq<(Seq<char>, Seq<char>)>) -> Seq<char> {
    if es.len() == 0 {
        u
    } else if u.contains('?') {
        u + "&"@ + query_string(es)
    } else {
        u + "?"@ + query_string(es)
    }
}

/// Attaching a query leaves an explicit scheme in place.
pub proof fn lemma_with_params_keeps_scheme(u: Seq<char>, es: Seq<(Seq<char>, Seq<char>)>)
    requires
        has_explicit_scheme(u),
    ensures
        has_explicit_scheme(url_with_params(u, es)),
{
    let r = url_with_params(u, es);
    if es.len() > 0 {
        if is_prefix_of("http://"@, u) {
            assert(r.subrange(0, "http://"@.len() as int) =~= "http://"@);
        } else {
            assert(r.subrange(0, "https://"@.len() as int) =~= "https://"@);
        }
    }
}

/// Serialize effective parameter entries into a raw query string, joining
/// `key=value` segments with `&` and applying no percent-encoding.
pub fn serialize_params(params: &Vec<(String, String)>) -> (r: String)
    ensures
        r@ == query_string(entries_view(params@)),
{
    join_pairs(params, "=", "&")
}

/// Attach the serialized entries to the URL: nothing is appended when no
/// entry survives the filter; otherwise the query string follows `&` when
/// the URL already contains `?`, and `?` otherwise.
pub fn attach_params(url: String, params: &Vec<(String, String)>) -> (r: String)
    ensures
        r@ == url_with_params(url@, entries_view(params@)),
{
    if params.len() == 0 {
        proof {
            assert(entries_view(params@).len() == 0);
        }
        url
    } else {
        let qs = serialize_params(params);
        let mut out = url;
        if contains_char(out.as_str(), '?') {
            out.append("&");
        } else {
            out.append("?");
        }
        out.append(qs.as_str());
        out
    }
}

} // verus!
