//! Route logic of the ingestion server.  Each handler turns one request
//! into a reply and, for the routes with a side effect, the message to
//! enqueue onto the forwarding channel.  The listener, the HTTP wire format
//! and the permissive cross-origin policy live outside the crate; every
//! decision about status, body and forwarded message is made and proved
//! here.

use crate::json::{
    download_info_of, json_syntax_valid, json_valid, parse_download_file_info, DownloadFileInfo,
};
use vstd::prelude::*;

verus! {

/// Body of the reply to `GET /`.
pub open spec fn root_body() -> Seq<char> {
    "Hello from Axum!"@
}

/// The fixed greeting message that `GET /` enqueues.
pub open spec fn root_greeting() -> Seq<char> {
    "Hello from Axum to Tauri!"@
}

/// Body of the reply to `GET /health_check`.
pub open spec fn health_body() -> Seq<char> {
    "OK"@
}

/// Body of the reply to `POST /download_file_info` on valid JSON.
pub open spec fn download_ok_body() -> Seq<char> {
    "Download info received and sent to Tauri"@
}

/// Body of the reply to `POST /download_file_info` on malformed JSON.
pub open spec fn download_bad_body() -> Seq<char> {
    "Invalid JSON body"@
}

/// Body of the server-error reply sent when the forwarding channel is
/// closed under a request that owed it a message.
pub open spec fn forwarding_error_body() -> Seq<char> {
    "Failed to forward message"@
}

/// What one request handler decided: the reply, the message owed to the
/// forwarding channel, and the advisory typed reading of the payload.
pub struct RouteResponse {
    /// HTTP status of the reply.
    pub status: u16,
    /// Body of the reply.
    pub body: String,
    /// The message to enqueue onto the forwarding channel, if the route
    /// has a side effect.
    pub message: Option<String>,
    /// The typed reading of the payload, for logging; never a gate.
    pub info: Option<DownloadFileInfo>,
}

/// A settled HTTP reply.
pub struct HttpReply {
    /// HTTP status of the reply.
    pub status: u16,
    /// Body of the reply.
    pub body: String,
}

/// `GET /`: enqueue the fixed greeting, reply 200 with a plain-text body.
pub fn handle_root() -> (r: RouteResponse)
    ensures
        r.status == 200,
        r.body@ == root_body(),
        r.message matches Some(m) && m@ == root_greeting(),
        r.info is None,
{
    RouteResponse {
        status: 200,
        body: "Hello from Axum!".to_owned(),
        message: Some("Hello from Axum to Tauri!".to_owned()),
        info: None,
    }
}

/// `GET /health_check`: a pure liveness probe.  It replies 200/"OK" in
/// every state — no requirement is placed on the channel or the sink, and
/// no side effect is produced.
pub fn handle_health_check() -> (r: RouteResponse)
    ensures
        r.status == 200,
        r.body@ == health_body(),
        r.message is None,
        r.info is None,
{
    RouteResponse { status: 200, body: "OK".to_owned(), message: None, info: None }
}

/// Settle the reply to `POST /download_file_info` once JSON validity and
/// the advisory typed reading are known: valid JSON is confirmed with 200
/// and the raw text is owed to the channel; anything else is refused with
/// 400 and nothing is forwarded.
pub fn download_response(raw_body: String, valid: bool, info: Option<DownloadFileInfo>) -> (r:
    RouteResponse)
    ensures
        valid ==> {
            &&& r.status == 200
            &&& r.body@ == download_ok_body()
            &&& r.message matches Some(m) && m@ == raw_body@
        },
        !valid ==> {
            &&& r.status == 400
            &&& r.body@ == download_bad_body()
            &&& r.message is None
        },
        r.info == info,
{
    if valid {
        RouteResponse {
            status: 200,
            body: "Download info received and sent to Tauri".to_owned(),
            message: Some(raw_body),
            info,
        }
    } else {
        RouteResponse {
            status: 400,
            body: "Invalid JSON body".to_owned(),
            message: None,
            info,
        }
    }
}

/// `POST /download_file_info`: accept any syntactically valid JSON text,
/// attempt the advisory typed reading, and forward the original raw text —
/// never just the typed subset.  The reply is 200 exactly on valid JSON
/// and 400 otherwise; a shape mismatch is never a reason to refuse.
pub fn handle_download_file_info(raw_body: String) -> (r: RouteResponse)
    ensures
        r.status == 200 <==> json_valid(raw_body@),
        json_valid(raw_body@) ==> {
            &&& r.body@ == download_ok_body()
            &&& r.message matches Some(m) && m@ == raw_body@
        },
        !json_valid(raw_body@) ==> {
            &&& r.status == 400
            &&& r.body@ == download_bad_body()
            &&& r.message is None
        },
        r.info is Some <==> download_info_of(raw_body@) is Some,
        r.info matches Some(info) ==> (download_info_of(raw_body@) matches Some(t) && info.url@
            == t.0 && info.hash@ == t.1 && info.remote_id == t.2),
{
    let valid = json_syntax_valid(raw_body.as_str());
    let info = parse_download_file_info(raw_body.as_str());
    download_response(raw_body, valid, info)
}

/// Settle the final reply once the owed message has been offered to the
/// channel.  A request that owed no message, or whose message was
/// admitted, keeps its reply; a closed channel under an owed message is an
/// unrecoverable configuration error for that request and becomes a server
/// error.
pub fn reply_after_forwarding(resp: RouteResponse, forward_failed: bool) -> (r: HttpReply)
    ensures
        resp.message is None || !forward_failed ==> r.status == resp.status && r.body
            == resp.body,
        resp.message is Some && forward_failed ==> r.status == 500 && r.body@
            == forwarding_error_body(),
{
    if resp.message.is_some() && forward_failed {
        HttpReply { status: 500, body: "Failed to forward message".to_owned() }
    } else {
        HttpReply { status: resp.status, body: resp.body }
    }
}

} // verus!
