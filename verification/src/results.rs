//! The data returned by the code-search API, as the library models it.
use vstd::prelude::*;

verus! {

/// The repository a search hit belongs to.
pub struct Repository {
    pub name: String,
    pub full_name: String,
}

/// One matched file of a code search.
pub struct SearchResultItem {
    pub name: String,
    pub path: String,
    pub sha: String,
    /// Metadata URL of the file; the cache key is derived from it.
    pub url: String,
    pub git_url: String,
    pub html_url: String,
    /// IEEE 754 bit pattern of the hit's relevance score; the host layer
    /// converts from and to its floating-point value.
    pub score_bits: u32,
    pub repository: Repository,
}

/// A search response: the matched files, in the order the API returned them.
/// That order is authoritative and is preserved to the final output.
pub struct SearchResultSet {
    pub total_count: u32,
    pub incomplete_results: bool,
    pub items: Vec<SearchResultItem>,
}

/// What downloading one item came to: a file in the local cache, or an error
/// of this item alone.
pub enum DownloadOutcome {
    LocalPath { path: String },
    Failure { error: String },
}

} // verus!
