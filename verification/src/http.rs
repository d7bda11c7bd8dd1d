//! The fixed request configuration: headers carried by every request, and the
//! retry ceiling for transient failures.
use vstd::prelude::*;
use vstd::string::StringExecFns;

verus! {

/// Transient failures are retried at most this many times, with exponential
/// backoff between attempts.
pub const MAX_RETRIES: u32 = 3;

/// The `Authorization` header value for a token.
pub open spec fn bearer_text(token: Seq<char>) -> Seq<char> {
    "Bearer "@ + token
}

/// The three headers every request carries: the bearer authorization, the
/// API version pin, and the client's user agent.
pub fn auth_headers(token: &str) -> (r: Vec<(String, String)>)
    ensures
        r@.len() == 3,
        r@[0].0@ == "Authorization"@ && r@[0].1@ == bearer_text(token@),
        r@[1].0@ == "X-GitHub-Api-Version"@ && r@[1].1@ == "2022-11-28"@,
        r@[2].0@ == "User-Agent"@ && r@[2].1@ == "nvim-github-codesearch"@,
{
    let mut authorization = "Bearer ".to_owned();
    authorization.append(token);
    let mut r: Vec<(String, String)> = Vec::new();
    r.push(("Authorization".to_owned(), authorization));
    r.push(("X-GitHub-Api-Version".to_owned(), "2022-11-28".to_owned()));
    r.push(("User-Agent".to_owned(), "nvim-github-codesearch".to_owned()));
    r
}

} // verus!
