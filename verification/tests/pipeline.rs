use github_codesearch::aggregate::aggregate;
use github_codesearch::download::{
    cache_file_name, download_error_message, plan_download, scratch_dir_name, DownloadDecision,
    MetadataReply,
};
use github_codesearch::http::{auth_headers, MAX_RETRIES};
use github_codesearch::query::SearchQuery;
use github_codesearch::results::{DownloadOutcome, Repository, SearchResultItem, SearchResultSet};
use github_codesearch::search::{api_error_message, plan_after_search, search_url, SearchPlan, SearchReply};

fn item(name: &str, url: &str, full_name: &str, path: &str) -> SearchResultItem {
    SearchResultItem {
        name: name.to_string(),
        path: path.to_string(),
        sha: format!("sha-{}", name),
        url: url.to_string(),
        git_url: format!("git-{}", url),
        html_url: format!("html-{}", url),
        score_bits: 1.25f32.to_bits(),
        repository: Repository {
            name: full_name.to_string(),
            full_name: full_name.to_string(),
        },
    }
}

#[test]
fn search_url_encodes_the_raw_query() {
    let url = search_url("https://api.github.com", "foo bar language:rust");
    assert_eq!(
        url,
        "https://api.github.com/search/code?q=foo%20bar%20language%3Arust"
    );
}

#[test]
fn auth_headers_carry_token_version_and_agent() {
    let headers = auth_headers("sometoken");
    assert_eq!(headers.len(), 3);
    assert_eq!(headers[0].0, "Authorization");
    assert_eq!(headers[0].1, "Bearer sometoken");
    assert_eq!(headers[1].0, "X-GitHub-Api-Version");
    assert_eq!(headers[1].1, "2022-11-28");
    assert_eq!(headers[2].0, "User-Agent");
    assert_eq!(headers[2].1, "nvim-github-codesearch");
    assert_eq!(MAX_RETRIES, 3);
}

#[test]
fn error_texts_match_the_wire_format() {
    assert_eq!(
        api_error_message("rate limited"),
        "Github responded with an error: rate limited"
    );
    assert_eq!(
        download_error_message("https://u", "boom"),
        "failed to download file from url:https://u boom"
    );
}

#[test]
fn cache_file_name_is_digest_dash_name() {
    // The MD5 digest of "abc" is a published test vector.
    assert_eq!(
        cache_file_name("abc", "file.txt"),
        "900150983cd24fb0d6963f7d28e17f72-file.txt"
    );
    assert_eq!(scratch_dir_name(), "nvimghs");
}

#[test]
fn failed_search_aborts_with_one_top_level_error() {
    let plan = plan_after_search(SearchReply::Failure {
        message: "rate limited".to_string(),
    });
    match plan {
        SearchPlan::TopError { error } => {
            assert_eq!(error, "Github responded with an error: rate limited");
        }
        SearchPlan::Downloads { .. } => panic!("a failed search must launch no download"),
    }
}

#[test]
fn successful_search_downloads_the_items_in_order() {
    let results = SearchResultSet {
        total_count: 2,
        incomplete_results: false,
        items: vec![
            item("a.rs", "https://api/items/a", "owner/repo", "src/a.rs"),
            item("b.rs", "https://api/items/b", "owner/repo", "src/b.rs"),
        ],
    };
    let plan = plan_after_search(SearchReply::Results { results });
    match plan {
        SearchPlan::Downloads { items } => {
            assert_eq!(items.len(), 2);
            assert_eq!(items[0].name, "a.rs");
            assert_eq!(items[1].name, "b.rs");
        }
        SearchPlan::TopError { .. } => panic!("a successful search must not abort"),
    }
}

#[test]
fn second_download_of_the_same_item_uses_the_cache() {
    let first = plan_download(
        "https://api/items/a",
        "a.rs",
        false,
        MetadataReply::Resolved {
            download_url: "https://raw/a".to_string(),
        },
    );
    let first_name = match first {
        DownloadDecision::Fetch {
            download_url,
            file_name,
        } => {
            assert_eq!(download_url, "https://raw/a");
            file_name
        }
        _ => panic!("a cache miss must fetch"),
    };
    let second = plan_download(
        "https://api/items/a",
        "a.rs",
        true,
        MetadataReply::Resolved {
            download_url: "https://raw/a-signed-differently".to_string(),
        },
    );
    match second {
        DownloadDecision::UseCached { file_name } => assert_eq!(file_name, first_name),
        _ => panic!("a cache hit must not fetch again"),
    }
}

#[test]
fn failed_metadata_fetch_fails_this_item_alone() {
    let decision = plan_download(
        "https://api/items/a",
        "a.rs",
        false,
        MetadataReply::Failure {
            message: "not found".to_string(),
        },
    );
    match decision {
        DownloadDecision::Fail { message } => {
            assert_eq!(message, "Github responded with an error: not found");
        }
        _ => panic!("a failed metadata fetch must fail the item"),
    }
    let transport = plan_download(
        "https://api/items/a",
        "a.rs",
        false,
        MetadataReply::Transport {
            error: "connection reset".to_string(),
        },
    );
    match transport {
        DownloadDecision::Fail { message } => assert_eq!(message, "connection reset"),
        _ => panic!("an exhausted transport retry must fail the item"),
    }
}

#[test]
fn aggregation_isolates_one_failure_and_keeps_order() {
    let query = SearchQuery::from_query_string("foo bar language:rust").unwrap();
    let results = SearchResultSet {
        total_count: 3,
        incomplete_results: false,
        items: vec![
            item("a.rs", "https://api/items/a", "owner/repo", "src/a.rs"),
            item("b.rs", "https://api/items/b", "owner/repo", "src/b.rs"),
            item("c.rs", "https://api/items/c", "owner/other", "src/c.rs"),
        ],
    };
    // The outcomes stand in item order however the downloads finished.
    let outcomes = vec![
        DownloadOutcome::LocalPath {
            path: "/tmp/x/a".to_string(),
        },
        DownloadOutcome::Failure {
            error: "failed to download file from url:https://api/items/b connection reset"
                .to_string(),
        },
        DownloadOutcome::LocalPath {
            path: "/tmp/x/c".to_string(),
        },
    ];
    let entries = aggregate(&query, &results, &outcomes);
    assert_eq!(entries.len(), 3);
    assert_eq!(entries[0].name, "a.rs");
    assert_eq!(entries[1].name, "b.rs");
    assert_eq!(entries[2].name, "c.rs");
    assert_eq!(entries[0].result_entry_full_name, "owner/repo: src/a.rs");
    assert_eq!(entries[2].result_entry_full_name, "owner/other: src/c.rs");
    for entry in &entries {
        assert_eq!(entry.original_search_term, "foo bar");
        assert_eq!(entry.score_bits, 1.25f32.to_bits());
    }
    match &entries[0].outcome {
        DownloadOutcome::LocalPath { path } => assert_eq!(path, "/tmp/x/a"),
        DownloadOutcome::Failure { .. } => panic!("item 0 succeeded"),
    }
    match &entries[1].outcome {
        DownloadOutcome::Failure { error } => {
            assert!(error.contains("https://api/items/b"));
        }
        DownloadOutcome::LocalPath { .. } => panic!("item 1 failed"),
    }
    match &entries[2].outcome {
        DownloadOutcome::LocalPath { path } => assert_eq!(path, "/tmp/x/c"),
        DownloadOutcome::Failure { .. } => panic!("item 2 succeeded"),
    }
}
