//! JSON reading for the ingestion route.  Syntactic validity and the typed
//! reading of a download notice are decided by serde_json; both results
//! depend on the text alone, so each is given a name here, and the route
//! logic is verified against those names.

use vstd::prelude::*;

verus! {

/// Whether a text is syntactically valid JSON, as serde_json decides it.
pub uninterp spec fn json_valid(s: Seq<char>) -> bool;

/// The typed reading of a download notice out of a JSON text: the `url`
/// and `hash` string fields and the `remote_id` integer field, if the text
/// is a JSON object carrying all three.
pub uninterp spec fn download_info_of(s: Seq<char>) -> Option<(Seq<char>, Seq<char>, i64)>;

/// A structured download notice: where to fetch, the expected content
/// hash, and the remote record id.
pub struct DownloadFileInfo {
    pub url: String,
    pub hash: String,
    pub remote_id: i64,
}

/// Relies on serde_json::from_str::<serde_json::Value>: it returns `Ok`
/// exactly on syntactically valid JSON text, and its outcome depends on
/// the text alone.
#[verifier::external_body]
pub(crate) fn json_syntax_valid(s: &str) -> (r: bool)
    ensures
        r == json_valid(s@),
{
    serde_json::from_str::<serde_json::Value>(s).is_ok()
}

/// Relies on serde_json::from_str::<serde_json::Value> and on the `Value`
/// accessors `get`, `as_str` and `as_i64`: which fields a JSON text
/// carries, and their values, depend on the text alone, and a typed
/// reading succeeds only on text that parses as JSON at all.
#[verifier::external_body]
pub(crate) fn read_download_fields(s: &str) -> (r: Option<(String, String, i64)>)
    ensures
        r matches Some(t) ==> (download_info_of(s@) matches Some(u) && u.0 == t.0@ && u.1 == t.1@
            && u.2 == t.2),
        r is Some <==> download_info_of(s@) is Some,
        r is Some ==> json_valid(s@),
{
    let v: serde_json::Value = serde_json::from_str(s).ok()?;
    let url = v.get("url")?.as_str()?.to_owned();
    let hash = v.get("hash")?.as_str()?.to_owned();
    let remote_id = v.get("remote_id")?.as_i64()?;
    Some((url, hash, remote_id))
}

/// Attempt the typed reading of a download notice from a JSON text.  The
/// reading is advisory: the caller forwards the raw text whether or not it
/// succeeds.
pub fn parse_download_file_info(s: &str) -> (r: Option<DownloadFileInfo>)
    ensures
        r matches Some(info) ==> (download_info_of(s@) matches Some(t) && info.url@ == t.0
            && info.hash@ == t.1 && info.remote_id == t.2),
        r is Some <==> download_info_of(s@) is Some,
        r is Some ==> json_valid(s@),
{
    match read_download_fields(s) {
        Some((url, hash, remote_id)) => Some(DownloadFileInfo { url, hash, remote_id }),
        None => None,
    }
}

} // verus!
