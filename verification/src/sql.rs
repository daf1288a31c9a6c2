//! Assembly of SQL statement text.
//!
//! Statements are modelled as sequences of characters; every executable
//! builder is proved to produce exactly the modelled text.

use vstd::prelude::*;
use vstd::string::StringExecFns;

verus! {

/// `s` wrapped in double quotes, as emitted for every SQL identifier.
pub open spec fn quoted(s: Seq<char>) -> Seq<char> {
    seq!['"'] + s + seq!['"']
}

/// The parts joined with `sep` between consecutive parts.
pub open spec fn joined(parts: Seq<Seq<char>>, sep: Seq<char>) -> Seq<char>
    decreases parts.len(),
{
    if parts.len() == 0 {
        Seq::empty()
    } else if parts.len() == 1 {
        parts[0]
    } else {
        joined(parts.drop_last(), sep) + sep + parts.last()
    }
}

/// The quoted forms of all the names, in order.
pub open spec fn quoted_all(names: Seq<Seq<char>>) -> Seq<Seq<char>> {
    names.map_values(|n: Seq<char>| quoted(n))
}

/// Wraps an identifier in double quotes.
pub fn quote_ident(name: &str) -> (r: String)
    ensures
        r@ == quoted(name@),
{
    let mut r = String::from_str("\"");
    r.append(name);
    r.append("\"");
    proof {
        reveal_strlit("\"");
        assert(r@ =~= quoted(name@));
    }
    r
}

/// Joins the parts with `sep` between consecutive parts.
pub fn join(parts: &Vec<String>, sep: &str) -> (r: String)
    ensures
        r@ == joined(parts.deep_view(), sep@),
{
    let ghost pv = parts.deep_view();
    let mut r = String::new();
    let mut i: usize = 0;
    while i < parts.len()
        invariant
            i <= parts.len(),
            pv == parts.deep_view(),
            r@ == joined(pv.take(i as int), sep@),
        decreases parts.len() - i,
    {
        if i > 0 {
            r.append(sep);
        }
        r.append(parts[i].as_str());
        proof {
            assert(pv.take(i + 1).drop_last() =~= pv.take(i as int));
            assert(r@ =~= joined(pv.take(i + 1), sep@));
        }
        i = i + 1;
    }
    proof {
        assert(pv.take(parts.len() as int) =~= pv);
    }
    r
}

/// Quotes every name in the list, keeping the order.
pub fn quote_all(names: &Vec<String>) -> (r: Vec<String>)
    ensures
        r.deep_view() == quoted_all(names.deep_view()),
{
    let mut r: Vec<String> = Vec::new();
    let mut i: usize = 0;
    while i < names.len()
        invariant
            i <= names.len(),
            r.deep_view() == quoted_all(names.deep_view().take(i as int)),
        decreases names.len() - i,
    {
        let ghost prev = r.deep_view();
        let ghost prev_raw = r@;
        let q = quote_ident(names[i].as_str());
        r.push(q);
        proof {
            let nv = names.deep_view();
            assert(prev.len() == quoted_all(nv.take(i as int)).len());
            assert(prev.len() == prev_raw.len());
            assert(r@ == prev_raw.push(q));
            assert(r@.len() == i + 1);
            assert forall|j: int| 0 <= j < i + 1 implies r.deep_view()[j] == quoted_all(
                nv.take(i + 1),
            )[j] by {
                assert(r.deep_view()[j] == r@[j].deep_view());
                if j < i {
                    assert(r@[j] == prev_raw[j]);
                    assert(prev[j] == prev_raw[j].deep_view());
                    assert(prev[j] == quoted_all(nv.take(i as int))[j]);
                }
            }
            assert(r.deep_view() =~= quoted_all(nv.take(i + 1)));
        }
        i = i + 1;
    }
    proof {
        assert(names.deep_view().take(names.len() as int) =~= names.deep_view());
    }
    r
}

} // verus!
