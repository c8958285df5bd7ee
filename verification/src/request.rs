//! Assembling one outgoing request: the method, the final URL with its
//! query, the header mapping with last-write-wins duplicate resolution, and
//! the body that is actually transmitted.

use vstd::prelude::*;
use crate::rows::{effective_entries, effective_of, Row};
use crate::strutil::{entries_view, str_eq};
use crate::url::{attach_params, ensure_url_protocol, has_explicit_scheme,
    lemma_normalized_has_scheme, lemma_with_params_keeps_scheme, normalized_url, url_with_params};

verus! {

/// The five verbs the tool can send.
#[derive(Clone, Copy, PartialEq, Eq, Structural, Debug)]
pub enum Method {
    Get,
    Post,
    Put,
    Delete,
    Patch,
}

/// The verb a method name selects. Any name other than the five known ones
/// falls back to retrieval.
pub open spec fn method_of(name: Seq<char>) -> Method {
    if name == "POST"@ {
        Method::Post
    } else if name == "PUT"@ {
        Method::Put
    } else if name == "DELETE"@ {
        Method::Delete
    } else if name == "PATCH"@ {
        Method::Patch
    } else {
        Method::Get
    }
}

/// Map a method name to its verb, defaulting to GET for an unknown name.
pub fn method_from_name(name: &str) -> (m: Method)
    ensures
        m == method_of(name@),
{
    if str_eq(name, "POST") {
        Method::Post
    } else if str_eq(name, "PUT") {
        Method::Put
    } else if str_eq(name, "DELETE") {
        Method::Delete
    } else if str_eq(name, "PATCH") {
        Method::Patch
    } else {
        Method::Get
    }
}

/// The body a dispatch transmits: nothing for GET whatever the body field
/// holds, nothing for an empty body field, and the field verbatim otherwise.
pub open spec fn effective_body(m: Method, body: Seq<char>) -> Option<Seq<char>> {
    if m is Get || body.len() == 0 {
        None
    } else {
        Some(body)
    }
}

/// Decide what body the request carries. A GET request never carries one;
/// an empty body field means no body at all (not an empty body); any other
/// method with a non-empty field carries the field verbatim.
pub fn body_to_send(method: Method, body: String) -> (r: Option<String>)
    ensures
        match r {
            Some(b) => effective_body(method, body@) == Some(b@),
            None => effective_body(method, body@) is None,
        },
{
    match method {
        Method::Get => None,
        _ => if body.as_str().is_empty() {
            None
        } else {
            Some(body)
        },
    }
}

/// The mapping an entry sequence builds up: each entry inserted in order, so
/// a later entry overwrites an earlier one with the same key.
pub open spec fn map_of(es: Seq<(Seq<char>, Seq<char>)>) -> Map<Seq<char>, Seq<char>>
    decreases es.len(),
{
    if es.len() == 0 {
        Map::empty()
    } else {
        map_of(es.drop_last()).insert(es.last().0, es.last().1)
    }
}

/// No two entries share a key.
pub open spec fn keys_unique(es: Seq<(Seq<char>, Seq<char>)>) -> bool {
    forall|i: int, j: int| 0 <= i < j < es.len() ==> es[i].0 != es[j].0
}

/// The position of `k` among the keys of `out`, if it occurs.
fn find_key(out: &Vec<(String, String)>, k: &String) -> (r: Option<usize>)
    ensures
        match r {
            Some(j) => j < out@.len() && out@[j as int].0@ == k@,
            None => forall|t: int| 0 <= t < out@.len() ==> out@[t].0@ != k@,
        },
{
    let mut j: usize = 0;
    while j < out.len()
        invariant
            j <= out@.len(),
            forall|t: int| 0 <= t < j ==> out@[t].0@ != k@,
        decreases out@.len() - j,
    {
        if str_eq(out[j].0.as_str(), k.as_str()) {
            return Some(j);
        }
        j += 1;
    }
    None
}

/// Overwriting the value at position `j` changes the mapping exactly as one
/// more insertion of that key would, when no other entry shares the key.
proof fn lemma_map_of_update(s: Seq<(Seq<char>, Seq<char>)>, j: int, v: Seq<char>)
    requires
        keys_unique(s),
        0 <= j < s.len(),
    ensures
        map_of(s.update(j, (s[j].0, v))) == map_of(s).insert(s[j].0, v),
    decreases s.len(),
{
    let k = s[j].0;
    let s2 = s.update(j, (k, v));
    if j == s.len() - 1 {
        assert(s2.drop_last() =~= s.drop_last());
        assert(s2.last() == (k, v));
        assert(map_of(s.drop_last()).insert(k, s.last().1).insert(k, v) =~= map_of(
            s.drop_last(),
        ).insert(k, v));
    } else {
        let t = s.drop_last();
        assert(keys_unique(t)) by {
            assert(forall|a: int, b: int|
                0 <= a < b < t.len() ==> t[a] == s[a] && t[b] == s[b]);
        }
        lemma_map_of_update(t, j, v);
        assert(s2.drop_last() =~= t.update(j, (k, v)));
        assert(s2.last() == s.last());
        assert(k != s.last().0) by {
            assert(s[j].0 != s[s.len() - 1].0);
        }
        assert(map_of(t).insert(k, v).insert(s.last().0, s.last().1) =~= map_of(t).insert(
            s.last().0,
            s.last().1,
        ).insert(k, v));
    }
}

/// Collapse an entry sequence into a representation of its mapping: one
/// entry per key, a later duplicate overwriting the value of an earlier one.
pub fn header_map(entries: &Vec<(String, String)>) -> (r: Vec<(String, String)>)
    ensures
        keys_unique(entries_view(r@)),
        map_of(entries_view(r@)) == map_of(entries_view(entries@)),
{
    let mut out: Vec<(String, String)> = Vec::new();
    let mut i: usize = 0;
    while i < entries.len()
        invariant
            i <= entries@.len(),
            keys_unique(entries_view(out@)),
            map_of(entries_view(out@)) == map_of(entries_view(entries@).subrange(0, i as int)),
        decreases entries@.len() - i,
    {
        let k = entries[i].0.clone();
        let v = entries[i].1.clone();
        let ghost kv = (k@, v@);
        let ghost old_view = entries_view(out@);
        proof {
            lemma_map_of_prefix_step(entries_view(entries@), i as int);
            assert(entries_view(entries@)[i as int] == (entries@[i as int].0@, entries@[
                i as int
            ].1@));
        }
        match find_key(&out, &k) {
            Some(j) => {
                proof {
                    assert(old_view[j as int].0 == kv.0);
                    lemma_map_of_update(old_view, j as int, kv.1);
                }
                out[j] = (k, v);
                proof {
                    assert(entries_view(out@) =~= old_view.update(j as int, kv));
                    assert(old_view.update(j as int, kv) == old_view.update(
                        j as int,
                        (old_view[j as int].0, kv.1),
                    ));
                }
            },
            None => {
                out.push((k, v));
                proof {
                    assert(entries_view(out@) =~= old_view.push(kv));
                    assert(entries_view(out@).drop_last() =~= old_view);
                }
            },
        }
        i += 1;
    }
    proof {
        assert(entries_view(entries@).subrange(0, entries@.len() as int) =~= entries_view(
            entries@,
        ));
    }
    out
}

/// Unfolding step for `map_of` over a growing prefix.
proof fn lemma_map_of_prefix_step(es: Seq<(Seq<char>, Seq<char>)>, i: int)
    requires
        0 <= i < es.len(),
    ensures
        map_of(es.subrange(0, i + 1)) == map_of(es.subrange(0, i)).insert(es[i].0, es[i].1),
{
    let p = es.subrange(0, i + 1);
    assert(p.drop_last() =~= es.subrange(0, i));
    assert(p.last() == es[i]);
}

/// One fully assembled request, ready to dispatch: the verb, the final URL
/// with the query attached, the collapsed header mapping, and the body to
/// transmit, if any.
pub struct RequestSpec {
    pub method: Method,
    pub url: String,
    pub headers: Vec<(String, String)>,
    pub body: Option<String>,
}

/// Assemble one request from the raw form state: the method name, the raw
/// URL, the two row lists and the body field. The URL is normalized and the
/// effective parameter entries become its query; the effective header
/// entries collapse to a last-write-wins mapping; the body follows the
/// method rule of `body_to_send`. The resulting URL always carries an
/// explicit scheme.
pub fn build_request(
    method_name: &str,
    raw_url: &str,
    param_rows: &Vec<Row>,
    header_rows: &Vec<Row>,
    body: String,
) -> (r: RequestSpec)
    ensures
        r.method == method_of(method_name@),
        r.url@ == url_with_params(normalized_url(raw_url@), effective_of(param_rows@)),
        has_explicit_scheme(r.url@),
        keys_unique(entries_view(r.headers@)),
        map_of(entries_view(r.headers@)) == map_of(effective_of(header_rows@)),
        match r.body {
            Some(b) => effective_body(r.method, body@) == Some(b@),
            None => effective_body(r.method, body@) is None,
        },
{
    let method = method_from_name(method_name);
    let normalized = ensure_url_protocol(raw_url);
    let params = effective_entries(param_rows);
    let url = attach_params(normalized, &params);
    let header_entries = effective_entries(header_rows);
    let headers = header_map(&header_entries);
    let send_body = body_to_send(method, body);
    proof {
        lemma_normalized_has_scheme(raw_url@);
        lemma_with_params_keeps_scheme(normalized_url(raw_url@), effective_of(param_rows@));
    }
    RequestSpec { method, url, headers, body: send_body }
}

} // verus!
