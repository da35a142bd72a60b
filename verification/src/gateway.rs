//! The HTTP proxy gateway: what is sent to the backend and how every
//! backend outcome is mapped to the client's reply.
//!
//! The gateway never reinterprets a backend response: status and body
//! pass through unchanged. Only the absence of a usable response is
//! translated — into a distinguished gateway status and a JSON error
//! body of the gateway's own.

use vstd::prelude::*;
use vstd::string::StringExecFns;
use crate::json::{json_escape, json_escaped};

verus! {

/// What one proxied call to the backend came to, as the runtime saw it.
pub enum FetchOutcome {
    /// The backend answered; its status and body, verbatim.
    Response { status: u16, body: String },
    /// The backend answered but its body could not be read as JSON.
    InvalidBody { message: String },
    /// The backend could not be reached at all.
    Unreachable { message: String },
}

/// The reply the gateway hands the client.
pub struct GatewayReply {
    pub status: u16,
    pub body: String,
}

/// The JSON object `{"error": msg}` the gateway emits for its own errors.
pub open spec fn error_body(msg: Seq<char>) -> Seq<char> {
    "{\"error\":\""@ + json_escaped(msg) + "\"}"@
}

/// Builds the gateway's own error body around the given message.
pub fn error_reply_body(message: &str) -> (b: String)
    ensures
        b@ == error_body(message@),
{
    let mut b = String::from_str("{\"error\":\"");
    b.append(json_escape(message).as_str());
    b.append("\"}");
    b
}

/// Maps one backend outcome to the client's reply: a response passes
/// through byte for byte, under its own status; a body that was no JSON
/// becomes a server error; an unreachable backend becomes the
/// distinguished gateway status, each with an `{"error": ...}` body.
pub fn gateway_reply(outcome: FetchOutcome) -> (r: GatewayReply)
    ensures
        outcome matches FetchOutcome::Response { status, body } ==> r.status == status && r.body
            == body,
        outcome matches FetchOutcome::InvalidBody { message } ==> r.status == 500 && r.body@
            == error_body(message@),
        outcome matches FetchOutcome::Unreachable { message } ==> r.status == 502 && r.body@
            == error_body(message@),
{
    match outcome {
        FetchOutcome::Response { status, body } => GatewayReply { status, body },
        FetchOutcome::InvalidBody { message } => GatewayReply {
            status: 500,
            body: error_reply_body(message.as_str()),
        },
        FetchOutcome::Unreachable { message } => GatewayReply {
            status: 502,
            body: error_reply_body(message.as_str()),
        },
    }
}

/// The URL of a proxied endpoint under the backend base URL.
pub fn proxy_url(base: &str, endpoint: &str) -> (u: String)
    ensures
        u@ == base@ + "/"@ + endpoint@,
{
    let mut u = base.to_owned();
    u.append("/");
    u.append(endpoint);
    u
}

/// The URL that serves the metrics of one workspace.
pub fn metrics_url(base: &str, workspace_id: &str) -> (u: String)
    ensures
        u@ == base@ + "/workspace/"@ + workspace_id@ + "/metrics"@,
{
    let mut u = base.to_owned();
    u.append("/workspace/");
    u.append(workspace_id);
    u.append("/metrics");
    u
}

/// The request envelope of an export call.
pub fn export_request_body(workspace_id: &str, output_path: &str, quality: &str) -> (b: String)
    ensures
        b@ == "{\"workspace_id\":\""@ + json_escaped(workspace_id@) + "\",\"output_path\":\""@
            + json_escaped(output_path@) + "\",\"quality\":\""@ + json_escaped(quality@) + "\"}"@,
{
    let mut b = String::from_str("{\"workspace_id\":\"");
    b.append(json_escape(workspace_id).as_str());
    b.append("\",\"output_path\":\"");
    b.append(json_escape(output_path).as_str());
    b.append("\",\"quality\":\"");
    b.append(json_escape(quality).as_str());
    b.append("\"}");
    b
}

/// One unary chat request as the front end hands it over; the context,
/// when present, is an opaque JSON text passed through unchanged.
pub struct ChatMessage {
    pub message: String,
    pub agent: String,
    pub context: Option<String>,
}

/// What the upload endpoint reports for one stored file.
pub struct UploadRecord {
    pub file_path: String,
    pub file_id: String,
    pub original_name: String,
}

/// A character of a lower-case hex rendering.
pub open spec fn is_lower_hex(c: char) -> bool {
    (('0' as u32) <= (c as u32) && (c as u32) <= ('9' as u32)) || (('a' as u32) <= (c as u32) && (
    c as u32) <= ('f' as u32))
}

/// A freshly drawn file id: 36 characters, lower-case hex in five groups
/// separated by hyphens at the four fixed positions.
pub open spec fn is_file_id(s: Seq<char>) -> bool {
    &&& s.len() == 36
    &&& forall|j: int|
        0 <= j < 36 ==> if j == 8 || j == 13 || j == 18 || j == 23 {
            s[j] == '-'
        } else {
            is_lower_hex(s[j])
        }
}

/// Relies on `uuid::Uuid::new_v4` and its `Display`: the hyphenated
/// rendering of a fresh random uuid — 36 characters, lower-case hex with
/// hyphens at positions 8, 13, 18 and 23. The value itself is random:
/// nothing further holds of it.
#[verifier::external_body]
fn new_file_id() -> (r: String)
    ensures
        is_file_id(r@),
{
    uuid::Uuid::new_v4().to_string()
}

/// Builds the record under which an uploaded file is stored: the file
/// lands in the staging directory under `<id>_<original name>`, and the
/// record repeats the id and the original name verbatim.
pub fn upload_record(upload_dir: &str, file_id: &str, original_name: &str) -> (r: UploadRecord)
    ensures
        r.file_path@ == upload_dir@ + "/"@ + file_id@ + "_"@ + original_name@,
        r.file_id@ == file_id@,
        r.original_name@ == original_name@,
{
    let mut p = upload_dir.to_owned();
    p.append("/");
    p.append(file_id);
    p.append("_");
    p.append(original_name);
    UploadRecord { file_path: p, file_id: file_id.to_owned(), original_name: original_name.to_owned() }
}

/// Draws a fresh file id and builds the record for one upload.
pub fn fresh_upload_record(upload_dir: &str, original_name: &str) -> (r: UploadRecord)
    ensures
        is_file_id(r.file_id@),
        r.file_path@ == upload_dir@ + "/"@ + r.file_id@ + "_"@ + original_name@,
        r.original_name@ == original_name@,
{
    let id = new_file_id();
    upload_record(upload_dir, id.as_str(), original_name)
}

} // verus!
