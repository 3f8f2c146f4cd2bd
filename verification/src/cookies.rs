//! Turning response session-cookie headers into the next cookie value.

use vstd::prelude::*;
use vstd::string::*;

verus! {

/// The name and value that cookie parsing reads from one header value, or
/// nothing when the header does not hold a cookie pair.
pub uninterp spec fn cookie_pair_of(header: Seq<char>) -> Option<(Seq<char>, Seq<char>)>;

/// Relies on cookie::Cookie::parse and Cookie::name_value: the name and the
/// value of the leading `name=value` segment of the header, a function of
/// the header text alone.
#[verifier::external_body]
pub(crate) fn parse_cookie(header: &str) -> (r: Option<(String, String)>)
    ensures
        match r {
            Some(p) => cookie_pair_of(header@) matches Some(q) && p.0@ == q.0 && p.1@ == q.1,
            None => cookie_pair_of(header@) is None,
        },
{
    match cookie::Cookie::parse(header) {
        Ok(c) => {
            let (name, value) = c.name_value();
            Some((name.to_string(), value.to_string()))
        },
        Err(_) => None,
    }
}

/// The `name=value` rendering of the pair a header parses to, if any.
pub open spec fn cookie_pair_str(header: Seq<char>) -> Option<Seq<char>> {
    match cookie_pair_of(header) {
        Some(p) => Some(p.0 + "="@ + p.1),
        None => None,
    }
}

/// The pairs that parse, in header order, each rendered as `name=value`.
pub open spec fn parsed_pairs(headers: Seq<Seq<char>>) -> Seq<Seq<char>>
    decreases headers.len(),
{
    if headers.len() == 0 {
        Seq::empty()
    } else {
        parsed_pairs(headers.drop_last()) + match cookie_pair_str(headers.last()) {
            Some(p) => seq![p],
            None => Seq::empty(),
        }
    }
}

/// The pairs joined in order with `"; "` between them.
pub open spec fn join_pairs(pairs: Seq<Seq<char>>) -> Seq<char>
    decreases pairs.len(),
{
    if pairs.len() == 0 {
        Seq::empty()
    } else if pairs.len() == 1 {
        pairs[0]
    } else {
        join_pairs(pairs.drop_last()) + "; "@ + pairs.last()
    }
}

/// The cookie value that a set of session-cookie headers yields.
pub open spec fn joined_cookies(headers: Seq<Seq<char>>) -> Seq<char> {
    join_pairs(parsed_pairs(headers))
}

proof fn lemma_join_pairs_snoc(ps: Seq<Seq<char>>, q: Seq<char>)
    ensures
        join_pairs(ps + seq![q]) == if ps.len() == 0 {
            q
        } else {
            join_pairs(ps) + "; "@ + q
        },
{
    let whole = ps + seq![q];
    assert(whole.drop_last() =~= ps);
    assert(whole.last() == q);
    if ps.len() == 0 {
        assert(whole.len() == 1);
        assert(whole[0] == q);
    }
}

/// Parses each header as a cookie and joins the pairs that parse, in
/// header order, as `name=value` strings separated by `"; "`.
pub fn join_cookie_headers(headers: &Vec<String>) -> (r: String)
    ensures
        r@ == joined_cookies(headers.deep_view()),
{
    let ghost hs = headers.deep_view();
    let mut r = String::new();
    let mut any = false;
    let mut i: usize = 0;
    while i < headers.len()
        invariant
            hs == headers.deep_view(),
            hs.len() == headers@.len(),
            i <= headers@.len(),
            any == (parsed_pairs(hs.subrange(0, i as int)).len() > 0),
            r@ == join_pairs(parsed_pairs(hs.subrange(0, i as int))),
        decreases headers@.len() - i,
    {
        proof {
            assert(hs.subrange(0, i + 1).drop_last() =~= hs.subrange(0, i as int));
            assert(hs.subrange(0, i + 1).last() == headers@[i as int]@);
        }
        let ghost prev = parsed_pairs(hs.subrange(0, i as int));
        match parse_cookie(headers[i].as_str()) {
            Some(pair) => {
                if any {
                    r.append("; ");
                }
                r.append(pair.0.as_str());
                r.append("=");
                r.append(pair.1.as_str());
                any = true;
                proof {
                    let q = cookie_pair_str(headers@[i as int]@).unwrap();
                    assert(parsed_pairs(hs.subrange(0, i + 1)) =~= prev + seq![q]);
                    lemma_join_pairs_snoc(prev, q);
                    assert(r@ =~= join_pairs(prev + seq![q]));
                }
            },
            None => {
                proof {
                    assert(parsed_pairs(hs.subrange(0, i + 1)) =~= prev);
                }
            },
        }
        i = i + 1;
    }
    proof {
        assert(hs.subrange(0, headers@.len() as int) =~= hs);
    }
    r
}

} // verus!
