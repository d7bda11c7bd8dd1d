//! The search request and what follows its reply: building the request URL,
//! and turning the reply into either the single top-level error or the list
//! of items to download.
use vstd::prelude::*;
use vstd::string::{StrSliceExecFns, StringExecFns, StringSliceAdditionalSpecFns};

use crate::results::{SearchResultItem, SearchResultSet};

verus! {

/// Bytes a URL encoder passes through unchanged: ASCII alphanumerics and
/// `-`, `.`, `_`, `~`.
pub open spec fn is_unreserved_byte(b: u8) -> bool {
    (48 <= b && b <= 57) || (65 <= b && b <= 90) || (97 <= b && b <= 122) || b == 45 || b == 46
        || b == 95 || b == 126
}

/// The uppercase hexadecimal digit of a value below 16.
pub open spec fn upper_hex_digit(d: u8) -> char
    recommends
        d < 16,
{
    if d <= 9 {
        (d + 48) as char
    } else {
        (d + 55) as char
    }
}

/// How one byte is URL-encoded: kept if unreserved, a `%` escape otherwise.
pub open spec fn encoded_byte(b: u8) -> Seq<char> {
    if is_unreserved_byte(b) {
        seq![b as char]
    } else {
        seq!['%', upper_hex_digit(b / 16), upper_hex_digit(b % 16)]
    }
}

/// The URL encoding of a byte sequence.
pub open spec fn url_encoded(bs: Seq<u8>) -> Seq<char>
    decreases bs.len(),
{
    if bs.len() == 0 {
        Seq::empty()
    } else {
        encoded_byte(bs[0]) + url_encoded(bs.drop_first())
    }
}

/// Relies on urlencoding::encode: every byte of the UTF-8 encoding is kept
/// if ASCII alphanumeric or `-`, `.`, `_`, `~`, and is percent-escaped as two
/// uppercase hexadecimal digits otherwise.
#[verifier::external_body]
fn encode_query(q: &str) -> (r: String)
    ensures
        r@ == url_encoded(q.spec_bytes()),
{
    urlencoding::encode(q).into_owned()
}

/// The search request URL for a base URL and a raw query.
pub open spec fn search_url_text(base: Seq<char>, query_bytes: Seq<u8>) -> Seq<char> {
    base + "/search/code?q="@ + url_encoded(query_bytes)
}

/// The single GET the search issues: the code-search path under the base URL,
/// with the URL-encoded raw query.
pub fn search_url(base: &str, query: &str) -> (r: String)
    ensures
        r@ == search_url_text(base@, query.spec_bytes()),
{
    let mut r = base.to_owned();
    r.append("/search/code?q=");
    let encoded = encode_query(query);
    r.append(encoded.as_str());
    r
}

/// The top-level error text for a structured API error message.
pub open spec fn api_error_text(message: Seq<char>) -> Seq<char> {
    "Github responded with an error: "@ + message
}

/// Wraps the `{message}` body of a failed API response into the error text
/// shown to the caller.
pub fn api_error_message(message: &str) -> (r: String)
    ensures
        r@ == api_error_text(message@),
{
    let mut r = "Github responded with an error: ".to_owned();
    r.append(message);
    r
}

/// What the search request came back with, decoded to plain values.
pub enum SearchReply {
    /// A non-success HTTP status whose body decoded as `{message}`.
    Failure { message: String },
    /// A network-level failure that outlived the retries.
    Transport { error: String },
    /// A success whose body decoded as the result set.
    Results { results: SearchResultSet },
}

/// What happens after the search: either the whole operation aborts with one
/// top-level error, or every item is downloaded, in the order given.
pub enum SearchPlan {
    TopError { error: String },
    Downloads { items: Vec<SearchResultItem> },
}

/// Decides the step after the search reply. A failed or unreachable search
/// aborts with a single top-level error and launches no download; a
/// successful one downloads exactly the returned items, in their order.
pub fn plan_after_search(reply: SearchReply) -> (p: SearchPlan)
    ensures
        reply matches SearchReply::Failure { message } ==> (p matches SearchPlan::TopError {
            error,
        } && error@ == api_error_text(message@)),
        reply matches SearchReply::Transport { error } ==> (p matches SearchPlan::TopError {
            error: e,
        } && e@ == error@),
        reply matches SearchReply::Results { results } ==> (p matches SearchPlan::Downloads {
            items,
        } && items == results.items),
{
    match reply {
        SearchReply::Failure { message } => SearchPlan::TopError {
            error: api_error_message(message.as_str()),
        },
        SearchReply::Transport { error } => SearchPlan::TopError { error },
        SearchReply::Results { results } => SearchPlan::Downloads { items: results.items },
    }
}

} // verus!
