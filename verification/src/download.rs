//! Per-item download planning: the content-addressed cache name and the
//! decision each metadata reply leads to. Every download is planned from its
//! own item's values alone, so one item's failure cannot touch another's.
use vstd::prelude::*;
use vstd::string::StringExecFns;

use crate::search::api_error_text;
use crate::search::api_error_message;

verus! {

/// The lowercase hexadecimal MD5 digest of a string's bytes: 32 characters,
/// a function of the input alone.
pub uninterp spec fn md5_hex(s: Seq<char>) -> Seq<char>;

/// Relies on md5::compute and the digest's lowercase-hex display: a digest is
/// 16 bytes, shown as 32 lowercase hexadecimal characters, and depends on the
/// input bytes alone.
#[verifier::external_body]
fn md5_hex_string(s: &str) -> (r: String)
    ensures
        r@ == md5_hex(s@),
        r@.len() == 32,
{
    let digest = md5::compute(s.as_bytes());
    format!("{:x}", digest)
}

/// The cache file name of an item: the digest of its metadata URL, a dash,
/// and the item's display name.
pub open spec fn cache_name_text(url: Seq<char>, filename: Seq<char>) -> Seq<char> {
    md5_hex(url) + "-"@ + filename
}

/// Computes the content-addressed cache file name. The digest is taken over
/// the item's metadata URL, not the resolved download URL, so the name is
/// stable across repeated searches.
pub fn cache_file_name(url: &str, filename: &str) -> (r: String)
    ensures
        r@ == cache_name_text(url@, filename@),
{
    let mut r = md5_hex_string(url);
    r.append("-");
    r.append(filename);
    r
}

/// The cache key is a function of the item's URL and name alone: planning the
/// same item's download again yields the same cache file name, so the second
/// download is served from the file the first one wrote.
pub proof fn lemma_cache_name_deterministic(
    url1: Seq<char>,
    name1: Seq<char>,
    url2: Seq<char>,
    name2: Seq<char>,
)
    requires
        url1 == url2,
        name1 == name2,
    ensures
        cache_name_text(url1, name1) == cache_name_text(url2, name2),
{
}

/// Name of the scratch directory, under the system temp directory, that holds
/// the cached downloads until an explicit cleanup.
pub fn scratch_dir_name() -> (r: String)
    ensures
        r@ == "nvimghs"@,
{
    "nvimghs".to_owned()
}

/// What the metadata fetch for one item came back with, as plain values.
pub enum MetadataReply {
    /// A non-success HTTP status whose body decoded as `{message}`.
    Failure { message: String },
    /// A network-level failure that outlived the retries.
    Transport { error: String },
    /// A success whose body decoded as `{download_url}`.
    Resolved { download_url: String },
}

/// The step a metadata reply leads to for one item.
pub enum DownloadDecision {
    /// Record this item's error; siblings are untouched.
    Fail { message: String },
    /// The file is already cached under its content-addressed name: use it
    /// without fetching the content again.
    UseCached { file_name: String },
    /// Fetch the resolved URL and write the bytes under the cache name.
    Fetch { download_url: String, file_name: String },
}

/// Decides one item's download from its metadata reply and whether its cache
/// file already exists. A failed reply fails this item alone; a resolved
/// reply fetches only when the cache misses.
pub fn plan_download(item_url: &str, item_name: &str, cached: bool, reply: MetadataReply) -> (d:
    DownloadDecision)
    ensures
        reply matches MetadataReply::Failure { message } ==> (d matches DownloadDecision::Fail {
            message: m,
        } && m@ == api_error_text(message@)),
        reply matches MetadataReply::Transport { error } ==> (d matches DownloadDecision::Fail {
            message: m,
        } && m@ == error@),
        reply matches MetadataReply::Resolved { download_url } ==> {
            &&& cached ==> (d matches DownloadDecision::UseCached { file_name } && file_name@
                == cache_name_text(item_url@, item_name@))
            &&& !cached ==> (d matches DownloadDecision::Fetch { download_url: u, file_name } && u@
                == download_url@ && file_name@ == cache_name_text(item_url@, item_name@))
        },
{
    match reply {
        MetadataReply::Failure { message } => DownloadDecision::Fail {
            message: api_error_message(message.as_str()),
        },
        MetadataReply::Transport { error } => DownloadDecision::Fail { message: error },
        MetadataReply::Resolved { download_url } => {
            let file_name = cache_file_name(item_url, item_name);
            if cached {
                DownloadDecision::UseCached { file_name }
            } else {
                DownloadDecision::Fetch { download_url, file_name }
            }
        },
    }
}

/// The per-item error text wrapped around whatever a download step reported.
pub open spec fn download_error_text(url: Seq<char>, detail: Seq<char>) -> Seq<char> {
    "failed to download file from url:"@ + url + " "@ + detail
}

/// Wraps one item's download error with the URL it failed for.
pub fn download_error_message(url: &str, detail: &str) -> (r: String)
    ensures
        r@ == download_error_text(url@, detail@),
{
    let mut r = "failed to download file from url:".to_owned();
    r.append(url);
    r.append(" ");
    r.append(detail);
    r
}

} // verus!
