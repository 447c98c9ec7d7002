//! Replies of the server that belong to no endpoint.

use vstd::prelude::*;

verus! {

/// Body of the reply to a request that failed inside the server.
pub fn internal_error() -> (body: &'static str)
    ensures
        body@ == "Internal server error"@,
{
    "Internal server error"
}

/// Body of the reply to a malformed request.
pub fn bad_request() -> (body: &'static str)
    ensures
        body@ == "Bad request"@,
{
    "Bad request"
}

/// What [`not_found`] answers for the request target `uri`.
pub open spec fn spec_not_found(uri: Seq<char>) -> Seq<char> {
    "Unknown route '"@ + uri + "'."@
}

/// Body of the reply to a request for a target that no endpoint serves.
pub fn not_found(uri: &str) -> (body: String)
    ensures
        body@ == spec_not_found(uri@),
{
    let mut body = String::from_str("Unknown route '");
    body.append(uri);
    body.append("'.");
    body
}

} // verus!
