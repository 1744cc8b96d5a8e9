use vstd::prelude::*;

use crate::strutil::{clone_string, str_eq};

verus! {

/// What parsing a string as `application/x-www-form-urlencoded` yields: the
/// decoded key/value pairs, in order of appearance — a function of the
/// string alone.
pub uninterp spec fn query_pairs_of(q: Seq<char>) -> Seq<(Seq<char>, Seq<char>)>;

/// Relies on url's `form_urlencoded::parse`: the decoded pairs depend on the
/// input alone, and an empty input yields no pairs.
#[verifier::external_body]
pub(crate) fn parse_query(q: &str) -> (r: Vec<(String, String)>)
    ensures
        r.deep_view() == query_pairs_of(q@),
        q@.len() == 0 ==> r@.len() == 0,
{
    url::form_urlencoded::parse(q.as_bytes()).into_owned().collect()
}

/// The value of the last pair with the given key, if any — what a map built
/// from the pairs in order would hold for that key.
pub open spec fn spec_last_value(ps: Seq<(Seq<char>, Seq<char>)>, key: Seq<char>) -> Option<
    Seq<char>,
>
    decreases ps.len(),
{
    if ps.len() == 0 {
        None
    } else if ps.last().0 == key {
        Some(ps.last().1)
    } else {
        spec_last_value(ps.drop_last(), key)
    }
}

/// Look a key up among decoded pairs; the last pair with that key wins.
pub fn last_value(ps: &Vec<(String, String)>, key: &str) -> (r: Option<String>)
    ensures
        (r is Some) == (spec_last_value(ps.deep_view(), key@) is Some),
        r matches Some(v) ==> (spec_last_value(ps.deep_view(), key@) matches Some(sv) && v@ == sv),
{
    let mut i: usize = ps.len();
    proof {
        assert(ps.deep_view().take(ps.len() as int) =~= ps.deep_view());
    }
    while i > 0
        invariant
            0 <= i <= ps.len(),
            spec_last_value(ps.deep_view(), key@) == spec_last_value(
                ps.deep_view().take(i as int),
                key@,
            ),
        decreases i,
    {
        proof {
            assert(ps.deep_view().take(i as int).drop_last() =~= ps.deep_view().take(i - 1));
            assert(ps.deep_view().take(i as int).last() == ps.deep_view()[i - 1]);
        }
        if str_eq(ps[i - 1].0.as_str(), key) {
            return Some(clone_string(&ps[i - 1].1));
        }
        i -= 1;
    }
    proof {
        assert(ps.deep_view().take(0) =~= Seq::<(Seq<char>, Seq<char>)>::empty());
    }
    None
}

} // verus!
