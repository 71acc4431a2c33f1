//! How the URL of a request is formed from the base URL and an endpoint.
use vstd::prelude::*;

verus! {

/// The URL requested for `endpoint` under `base`: the two joined by one `/`,
/// with no normalisation of either side.
pub open spec fn joined_url(base: Seq<char>, endpoint: Seq<char>) -> Seq<char> {
    base + seq!['/'] + endpoint
}

/// Requests under one base URL are independent of each other: each URL starts
/// with the base URL unchanged, followed by `/`, and two different endpoints
/// always give two different URLs.
pub proof fn lemma_endpoints_independent(base: Seq<char>, e1: Seq<char>, e2: Seq<char>)
    ensures
        joined_url(base, e1).subrange(0, base.len() as int) == base,
        joined_url(base, e1)[base.len() as int] == '/',
        joined_url(base, e1).len() == base.len() + 1 + e1.len(),
        joined_url(base, e1) == joined_url(base, e2) <==> e1 == e2,
{
    let u1 = joined_url(base, e1);
    let u2 = joined_url(base, e2);
    let n = base.len() + 1;
    assert(u1.subrange(0, base.len() as int) =~= base);
    assert(u1.subrange(n as int, u1.len() as int) =~= e1);
    assert(u2.subrange(n as int, u2.len() as int) =~= e2);
}

/// Joins `base` and `endpoint` with a single `/`, keeping both exactly as
/// given (a trailing `/` in `base` gives a double slash).
pub fn join_url(base: &str, endpoint: &str) -> (r: String)
    ensures
        r@ == joined_url(base@, endpoint@),
{
    let mut url = String::from_str(base);
    let sep = "/";
    proof {
        reveal_strlit("/");
    }
    url.append(sep);
    url.append(endpoint);
    url
}

} // verus!
