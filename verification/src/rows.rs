//! The row model: one user-edited (included?, key, value) triple, and the
//! filter that turns a sequence of rows into the effective key/value entries.

use vstd::prelude::*;
use crate::strutil::entries_view;

verus! {

/// One form row of the parameter or header list: a toggle plus two text
/// fields. Rows are created by user action and only ever read afterwards.
pub struct Row {
    pub included: bool,
    pub key: String,
    pub value: String,
}

/// The entry a single row contributes: its key/value pair when the row is
/// toggled on and its key is non-empty, nothing otherwise. The value may be
/// empty.
pub open spec fn row_entry(included: bool, key: Seq<char>, value: Seq<char>) -> Option<(
    Seq<char>,
    Seq<char>,
)> {
    if included && key.len() > 0 {
        Some((key, value))
    } else {
        None
    }
}

/// The effective entries of a row sequence, in row order: each row that
/// survives the inclusion-and-nonempty-key filter contributes one pair.
pub open spec fn effective_of(rs: Seq<Row>) -> Seq<(Seq<char>, Seq<char>)>
    decreases rs.len(),
{
    if rs.len() == 0 {
        Seq::empty()
    } else {
        effective_of(rs.drop_last()) + match row_entry(
            rs.last().included,
            rs.last().key@,
            rs.last().value@,
        ) {
            Some(e) => seq![e],
            None => Seq::empty(),
        }
    }
}

impl Row {
    /// A fresh row, toggled on with empty fields, as the form creates it.
    pub fn new() -> (r: Row)
        ensures
            r.included,
            r.key@ == Seq::<char>::empty(),
            r.value@ == Seq::<char>::empty(),
    {
        Row { included: true, key: String::new(), value: String::new() }
    }

    /// The entry this row contributes, if any: the key/value pair when the
    /// row is included and its key is non-empty.
    pub fn effective(&self) -> (r: Option<(String, String)>)
        ensures
            match r {
                Some(e) => row_entry(self.included, self.key@, self.value@) == Some((e.0@, e.1@)),
                None => row_entry(self.included, self.key@, self.value@) is None,
            },
    {
        if self.included {
            if !self.key.as_str().is_empty() {
                Some((self.key.clone(), self.value.clone()))
            } else {
                None
            }
        } else {
            None
        }
    }
}

/// All effective entries of a row list, in row order.
pub fn effective_entries(rs: &Vec<Row>) -> (r: Vec<(String, String)>)
    ensures
        entries_view(r@) == effective_of(rs@),
{
    let mut out: Vec<(String, String)> = Vec::new();
    let mut i: usize = 0;
    while i < rs.len()
        invariant
            i <= rs@.len(),
            entries_view(out@) == effective_of(rs@.subrange(0, i as int)),
        decreases rs@.len() - i,
    {
        match rs[i].effective() {
            Some(e) => {
                out.push(e);
            },
            None => {},
        }
        proof {
            lemma_effective_of_step(rs@, i as int);
        }
        i += 1;
    }
    proof {
        assert(rs@.subrange(0, rs@.len() as int) =~= rs@);
    }
    out
}

/// Unfolding step for `effective_of` over a growing prefix.
proof fn lemma_effective_of_step(rs: Seq<Row>, i: int)
    requires
        0 <= i < rs.len(),
    ensures
        effective_of(rs.subrange(0, i + 1)) == effective_of(rs.subrange(0, i)) + match row_entry(
            rs[i].included,
            rs[i].key@,
            rs[i].value@,
        ) {
            Some(e) => seq![e],
            None => Seq::<(Seq<char>, Seq<char>)>::empty(),
        },
{
    let p = rs.subrange(0, i + 1);
    assert(p.drop_last() =~= rs.subrange(0, i));
    assert(p.last() == rs[i]);
}

} // verus!
