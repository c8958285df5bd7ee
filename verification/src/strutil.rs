//! Small verified helpers on strings: equality, prefix test, character
//! search, and joining key/value pairs into one delimited text.

use vstd::prelude::*;

verus! {

/// `p` is an exact prefix of `s`.
pub open spec fn is_prefix_of(p: Seq<char>, s: Seq<char>) -> bool {
    p.len() <= s.len() && s.subrange(0, p.len() as int) == p
}

/// The view of a vector of owned string pairs as a sequence of character
/// sequences.
pub open spec fn entries_view(es: Seq<(String, String)>) -> Seq<(Seq<char>, Seq<char>)> {
    es.map_values(|e: (String, String)| (e.0@, e.1@))
}

/// One rendered pair: the key and the value with `mid` between them.
pub open spec fn pair_text(e: (Seq<char>, Seq<char>), mid: Seq<char>) -> Seq<char> {
    e.0 + mid + e.1
}

/// All pairs rendered with `mid` inside each and `sep` between consecutive
/// pairs, in sequence order; empty for no pairs, with no leading or trailing
/// separator.
pub open spec fn joined_pairs(
    es: Seq<(Seq<char>, Seq<char>)>,
    mid: Seq<char>,
    sep: Seq<char>,
) -> Seq<char>
    decreases es.len(),
{
    if es.len() == 0 {
        Seq::empty()
    } else if es.len() == 1 {
        pair_text(es[0], mid)
    } else {
        joined_pairs(es.drop_last(), mid, sep) + sep + pair_text(es.last(), mid)
    }
}

/// Render every pair as `key`, `mid`, `value`, joining consecutive pairs
/// with `sep`.
pub fn join_pairs(items: &Vec<(String, String)>, mid: &str, sep: &str) -> (r: String)
    ensures
        r@ == joined_pairs(entries_view(items@), mid@, sep@),
{
    let mut out = String::new();
    let mut i: usize = 0;
    while i < items.len()
        invariant
            i <= items@.len(),
            out@ == joined_pairs(entries_view(items@).subrange(0, i as int), mid@, sep@),
        decreases items@.len() - i,
    {
        if i > 0 {
            out.append(sep);
        }
        out.append(items[i].0.as_str());
        out.append(mid);
        out.append(items[i].1.as_str());
        proof {
            lemma_joined_pairs_step(entries_view(items@), mid@, sep@, i as int);
            assert(entries_view(items@)[i as int] == (items@[i as int].0@, items@[i as int].1@));
        }
        i += 1;
    }
    proof {
        assert(entries_view(items@).subrange(0, items@.len() as int) =~= entries_view(items@));
    }
    out
}

/// Unfolding step for `joined_pairs` over a growing prefix.
proof fn lemma_joined_pairs_step(
    es: Seq<(Seq<char>, Seq<char>)>,
    mid: Seq<char>,
    sep: Seq<char>,
    i: int,
)
    requires
        0 <= i < es.len(),
    ensures
        i == 0 ==> joined_pairs(es.subrange(0, 1), mid, sep) == pair_text(es[0], mid),
        i > 0 ==> joined_pairs(es.subrange(0, i + 1), mid, sep) == joined_pairs(
            es.subrange(0, i),
            mid,
            sep,
        ) + sep + pair_text(es[i], mid),
{
    let p = es.subrange(0, i + 1);
    assert(p.drop_last() =~= es.subrange(0, i));
    assert(p.last() == es[i]);
    if i == 0 {
        assert(p[0] == es[0]);
    }
}

/// String equality, reflected into the views.
pub fn str_eq(a: &str, b: &str) -> (r: bool)
    ensures
        r == (a@ == b@),
{
    let sa = a.to_owned();
    let sb = b.to_owned();
    sa == sb
}

/// Whether `s` starts with the exact character sequence `p`.
pub fn has_prefix(s: &str, p: &str) -> (r: bool)
    ensures
        r == is_prefix_of(p@, s@),
{
    let n = p.unicode_len();
    if n > s.unicode_len() {
        return false;
    }
    let mut i: usize = 0;
    while i < n
        invariant
            i <= n,
            n == p@.len(),
            n <= s@.len(),
            forall|j: int| 0 <= j < i ==> s@[j] == p@[j],
        decreases n - i,
    {
        if s.get_char(i) != p.get_char(i) {
            return false;
        }
        i += 1;
    }
    proof {
        assert(s@.subrange(0, p@.len() as int) =~= p@);
    }
    true
}

/// Whether the character `c` occurs in `s`.
pub fn contains_char(s: &str, c: char) -> (r: bool)
    ensures
        r == s@.contains(c),
{
    let n = s.unicode_len();
    let mut i: usize = 0;
    while i < n
        invariant
            i <= n,
            n == s@.len(),
            forall|j: int| 0 <= j < i ==> s@[j] != c,
        decreases n - i,
    {
        if s.get_char(i) == c {
            return true;
        }
        i += 1;
    }
    false
}

} // verus!
