//! Request-URL construction for the two index endpoints. The name or query is
//! percent-encoded into the configured base URL, and the transport layer sends
//! a GET against exactly the resulting strings; a fixed identifying header
//! accompanies every request.

use vstd::prelude::*;
use vstd::string::StringExecFns;
use crate::pct::pct_encode;
use crate::pct::pct_encoded;

verus! {

/// The value of the client-identifying header sent with every request.
pub fn user_agent() -> (r: &'static str)
    ensures
        r@ == "bot"@,
{
    "bot"
}

/// The package-detail endpoint for one package name under a base URL, the
/// name percent-encoded into the path.
pub open spec fn package_url_text(base: Seq<char>, name: Seq<char>) -> Seq<char> {
    base + "/packages/"@ + pct_encoded(name) + "?type=json"@
}

/// Builds the package-detail request URL.
pub fn package_url(base: &str, name: &str) -> (r: String)
    ensures
        r@ == package_url_text(base@, name@),
{
    let mut s: String = base.to_owned();
    s.append("/packages/");
    let encoded = pct_encode(name);
    s.append(encoded.as_str());
    s.append("?type=json");
    proof {
        assert(s@ =~= package_url_text(base@, name@));
    }
    s
}

/// The search endpoint for one query under a base URL, the query
/// percent-encoded into its parameter.
pub open spec fn search_url_text(base: Seq<char>, query: Seq<char>) -> Seq<char> {
    base + "/search?q="@ + pct_encoded(query) + "&type=json&noredir=true"@
}

/// Builds the search request URL.
pub fn search_url(base: &str, query: &str) -> (r: String)
    ensures
        r@ == search_url_text(base@, query@),
{
    let mut s: String = base.to_owned();
    s.append("/search?q=");
    let encoded = pct_encode(query);
    s.append(encoded.as_str());
    s.append("&type=json&noredir=true");
    proof {
        assert(s@ =~= search_url_text(base@, query@));
    }
    s
}

} // verus!
