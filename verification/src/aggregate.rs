//! Joining the search hits with the per-item download outcomes into the final
//! ordered result list. This step is pure: it preserves the search order by
//! index alignment and cannot itself fail.
use vstd::prelude::*;
use vstd::string::StringExecFns;

use crate::query::SearchQuery;
use crate::results::{DownloadOutcome, SearchResultItem, SearchResultSet};

verus! {

/// The display label of a hit: `{repository.full_name}: {path}`.
pub open spec fn display_label_text(full_name: Seq<char>, path: Seq<char>) -> Seq<char> {
    full_name + ": "@ + path
}

/// Builds the display label of a hit.
pub fn display_label(full_name: &str, path: &str) -> (r: String)
    ensures
        r@ == display_label_text(full_name@, path@),
{
    let mut r = full_name.to_owned();
    r.append(": ");
    r.append(path);
    r
}

/// One row of the final output: the item's fields, the query's search term,
/// the display label, and this item's download outcome.
pub struct AggregatedResultEntry {
    pub name: String,
    pub path: String,
    pub sha: String,
    pub url: String,
    pub git_url: String,
    pub html_url: String,
    /// IEEE 754 bit pattern of the hit's relevance score.
    pub score_bits: u32,
    pub original_search_term: String,
    pub result_entry_full_name: String,
    pub outcome: DownloadOutcome,
}

/// Two download outcomes carry the same tag and text.
pub open spec fn outcome_eq(a: DownloadOutcome, b: DownloadOutcome) -> bool {
    match (a, b) {
        (DownloadOutcome::LocalPath { path: p1 }, DownloadOutcome::LocalPath { path: p2 }) => p1@
            == p2@,
        (DownloadOutcome::Failure { error: e1 }, DownloadOutcome::Failure { error: e2 }) => e1@
            == e2@,
        _ => false,
    }
}

/// The entry is the join of one item, the query's search term, and that
/// item's own download outcome.
pub open spec fn entry_matches(
    e: AggregatedResultEntry,
    item: SearchResultItem,
    term: Seq<char>,
    outcome: DownloadOutcome,
) -> bool {
    &&& e.name@ == item.name@
    &&& e.path@ == item.path@
    &&& e.sha@ == item.sha@
    &&& e.url@ == item.url@
    &&& e.git_url@ == item.git_url@
    &&& e.html_url@ == item.html_url@
    &&& e.score_bits == item.score_bits
    &&& e.original_search_term@ == term
    &&& e.result_entry_full_name@ == display_label_text(item.repository.full_name@, item.path@)
    &&& outcome_eq(e.outcome, outcome)
}

/// The whole output is aligned: one entry per item, in the items' order, each
/// joined with the outcome at its own index.
pub open spec fn aggregation_matches(
    entries: Seq<AggregatedResultEntry>,
    items: Seq<SearchResultItem>,
    term: Seq<char>,
    outcomes: Seq<DownloadOutcome>,
) -> bool {
    &&& entries.len() == items.len()
    &&& outcomes.len() == items.len()
    &&& forall|i: int|
        0 <= i < entries.len() ==> entry_matches(#[trigger] entries[i], items[i], term, outcomes[i])
}

fn clone_outcome(o: &DownloadOutcome) -> (r: DownloadOutcome)
    ensures
        outcome_eq(r, *o),
{
    match o {
        DownloadOutcome::LocalPath { path } => DownloadOutcome::LocalPath { path: path.clone() },
        DownloadOutcome::Failure { error } => DownloadOutcome::Failure { error: error.clone() },
    }
}

/// Joins the search hits with the aligned download outcomes into the final
/// list: one entry per item, in the original order, each carrying the search
/// term, its display label, and its own outcome.
pub fn aggregate(
    query: &SearchQuery,
    results: &SearchResultSet,
    outcomes: &Vec<DownloadOutcome>,
) -> (r: Vec<AggregatedResultEntry>)
    requires
        outcomes@.len() == results.items@.len(),
    ensures
        aggregation_matches(r@, results.items@, query.search_term@, outcomes@),
{
    let n = results.items.len();
    let mut out: Vec<AggregatedResultEntry> = Vec::new();
    let mut idx: usize = 0;
    while idx < n
        invariant
            idx <= n,
            n == results.items@.len(),
            outcomes@.len() == n,
            out@.len() == idx,
            forall|i: int|
                0 <= i < idx ==> entry_matches(
                    #[trigger] out@[i],
                    results.items@[i],
                    query.search_term@,
                    outcomes@[i],
                ),
        decreases n - idx,
    {
        let item = &results.items[idx];
        let entry = AggregatedResultEntry {
            name: item.name.clone(),
            path: item.path.clone(),
            sha: item.sha.clone(),
            url: item.url.clone(),
            git_url: item.git_url.clone(),
            html_url: item.html_url.clone(),
            score_bits: item.score_bits,
            original_search_term: query.search_term.clone(),
            result_entry_full_name: display_label(
                item.repository.full_name.as_str(),
                item.path.as_str(),
            ),
            outcome: clone_outcome(&outcomes[idx]),
        };
        out.push(entry);
        idx += 1;
    }
    out
}

/// Per-item failure isolation: when one item's download fails and every other
/// succeeds, the aggregated list still holds one entry per item, the failed
/// item's entry alone carries an error, and every other entry carries its
/// local path.
pub proof fn lemma_failure_isolated(
    entries: Seq<AggregatedResultEntry>,
    items: Seq<SearchResultItem>,
    term: Seq<char>,
    outcomes: Seq<DownloadOutcome>,
    k: int,
)
    requires
        aggregation_matches(entries, items, term, outcomes),
        0 <= k < outcomes.len(),
        outcomes[k] is Failure,
        forall|i: int| 0 <= i < outcomes.len() && i != k ==> #[trigger] outcomes[i] is LocalPath,
    ensures
        entries.len() == items.len(),
        entries[k].outcome is Failure,
        forall|i: int| 0 <= i < entries.len() && i != k ==> #[trigger] entries[i].outcome is LocalPath,
{
    assert forall|i: int| 0 <= i < entries.len() && i != k implies #[trigger] entries[i].outcome is LocalPath by {
        assert(entry_matches(entries[i], items[i], term, outcomes[i]));
    }
}

/// Order preservation: the aggregated list follows the search order by index
/// alignment, whatever order the downloads completed in — the entry at each
/// position is built from the item at the same position.
pub proof fn lemma_order_preserved(
    entries: Seq<AggregatedResultEntry>,
    items: Seq<SearchResultItem>,
    term: Seq<char>,
    outcomes: Seq<DownloadOutcome>,
)
    requires
        aggregation_matches(entries, items, term, outcomes),
    ensures
        entries.len() == items.len(),
        forall|i: int|
            0 <= i < entries.len() ==> #[trigger] entries[i].url@ == items[i].url@
                && entries[i].name@ == items[i].name@ && entries[i].path@ == items[i].path@,
{
    assert forall|i: int|
        0 <= i < entries.len() implies #[trigger] entries[i].url@ == items[i].url@
        && entries[i].name@ == items[i].name@ && entries[i].path@ == items[i].path@ by {
        assert(entry_matches(entries[i], items[i], term, outcomes[i]));
    }
}

} // verus!
