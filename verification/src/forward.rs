use vstd::prelude::*;
use vstd::string::StringExecFns;

verus! {

/// The query part appended to a forwarded URL: `?` followed by the query
/// string when the inbound request carried one, nothing otherwise.
pub open spec fn query_suffix(query: Option<Seq<char>>) -> Seq<char> {
    match query {
        Some(q) => seq!['?'] + q,
        None => Seq::empty(),
    }
}

/// The URL an inbound request is forwarded to: the upstream base followed by
/// the original path and, when present, the original query string.
pub open spec fn spec_target_url(base: Seq<char>, path: Seq<char>, query: Option<Seq<char>>) -> Seq<char> {
    base + path + query_suffix(query)
}

/// Builds the upstream target URL for one forwarded request.
pub fn target_url(base: &str, path: &str, query: Option<&str>) -> (r: String)
    ensures
        r@ == spec_target_url(base@, path@, match query {
            Some(q) => Some(q@),
            None => None,
        }),
{
    let mut url = String::new();
    url.append(base);
    url.append(path);
    match query {
        Some(q) => {
            url.append("?");
            url.append(q);
            proof {
                reveal_strlit("?");
                assert("?"@ =~= seq!['?']);
                assert(url@ =~= spec_target_url(base@, path@, Some(q@)));
            }
        },
        None => {
            proof {
                assert(url@ =~= spec_target_url(base@, path@, None::<Seq<char>>));
            }
        },
    }
    url
}

} // verus!
