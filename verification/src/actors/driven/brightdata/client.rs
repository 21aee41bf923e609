//! What the provider's HTTP client decides: the addresses it calls, the
//! authorization it sends, and how it reads a progress report.
use vstd::prelude::*;
use vstd::string::*;
use crate::json::{json_as_str, json_get, json_text_model, parse_json, JsonModel};
use crate::text::{eq_ignore_ascii_case, str_eq_ignore_ascii_case};

verus! {

/// Why a client operation failed before or after its request.
pub enum ClientError {
    /// The token cannot stand in an `Authorization` header.
    InvalidToken,
    /// A progress report that is no JSON document.
    ProgressParse,
}

impl ClientError {
    /// The text that reports the error.
    pub open spec fn message_text(&self) -> Seq<char> {
        match self {
            ClientError::InvalidToken => "invalid token for Authorization header"@,
            ClientError::ProgressParse => "failed parsing progress response"@,
        }
    }

    /// The text that reports the error.
    pub fn message(&self) -> (r: String)
        ensures
            r@ == self.message_text(),
    {
        match self {
            ClientError::InvalidToken => String::from_str("invalid token for Authorization header"),
            ClientError::ProgressParse => String::from_str("failed parsing progress response"),
        }
    }
}

/// The address of the provider's dataset API.
pub open spec fn base_url() -> Seq<char> {
    "https://api.brightdata.com/datasets/v3"@
}

/// The full address of an endpoint of the dataset API.
pub fn endpoint_url(endpoint: &str) -> (r: String)
    ensures
        r@ == base_url() + endpoint@,
{
    let mut out = String::from_str("https://api.brightdata.com/datasets/v3");
    out.append(endpoint);
    out
}

/// The endpoint that starts a collection, with its query parameters.
pub fn trigger_endpoint(params: &str) -> (r: String)
    ensures
        r@ == "/trigger"@ + params@,
{
    let mut out = String::from_str("/trigger");
    out.append(params);
    out
}

/// The endpoint that lists the snapshots.
pub fn snapshots_endpoint() -> (r: String)
    ensures
        r@ == "/snapshots"@,
{
    String::from_str("/snapshots")
}

/// The endpoint that serves the data of a snapshot.
pub fn snapshot_endpoint(snapshot_id: &str) -> (r: String)
    ensures
        r@ == "/snapshot/"@ + snapshot_id@,
{
    let mut out = String::from_str("/snapshot/");
    out.append(snapshot_id);
    out
}

/// The endpoint that reports the progress of a snapshot.
pub fn progress_endpoint(snapshot_id: &str) -> (r: String)
    ensures
        r@ == "/progress/"@ + snapshot_id@,
{
    let mut out = String::from_str("/progress/");
    out.append(snapshot_id);
    out
}

/// A character that an HTTP header value may hold: a tab, or a visible
/// ASCII character or space, or any non-ASCII character (whose UTF-8 bytes
/// are all 0x80 or above).
pub open spec fn header_value_char(c: char) -> bool {
    c == '\t' || (' ' <= c && c != '\x7f')
}

/// `reqwest::header::HeaderValue::from_str` succeeds: its source accepts a
/// text exactly where every byte `b` has `b >= 32 && b != 127 || b == b'\t'`,
/// which for UTF-8 text is a condition on each character.
#[verifier::external_body]
fn header_value_accepts(s: &str) -> (r: bool)
    ensures
        r == header_text(s@),
{
    reqwest::header::HeaderValue::from_str(s).is_ok()
}

/// Holds of a text that an HTTP header value may hold.
pub open spec fn header_text(s: Seq<char>) -> bool {
    forall|i: int| 0 <= i < s.len() ==> #[trigger] header_value_char(s[i])
}

/// The `Authorization` header value that carries a bearer token.
pub open spec fn bearer_text(token: Seq<char>) -> Seq<char> {
    "Bearer "@ + token
}

/// The `Authorization` header value for `token`; an error where the token
/// holds a character that no header value may hold.
pub fn authorization_value(token: &str) -> (r: Result<String, ClientError>)
    ensures
        match r {
            Ok(v) => header_text(token@) && v@ == bearer_text(token@),
            Err(e) => !header_text(token@) && e is InvalidToken,
        },
{
    let mut bearer = String::from_str("Bearer ");
    bearer.append(token);
    proof {
        reveal_strlit("Bearer ");
        let b = bearer@;
        assert(forall|i: int| 0 <= i < token@.len() ==> b[i + 7] == token@[i]);
        assert(forall|i: int| 0 <= i < 7 ==> #[trigger] header_value_char(b[i]));
        if header_text(token@) {
            assert forall|i: int| 0 <= i < b.len() implies #[trigger] header_value_char(b[i]) by {
                if i >= 7 {
                    assert(header_value_char(token@[i - 7]));
                }
            }
        } else {
            let k = choose|i: int| 0 <= i < token@.len() && !#[trigger] header_value_char(token@[i]);
            assert(!header_value_char(b[k + 7]));
        }
    }
    if header_value_accepts(bearer.as_str()) {
        Ok(bearer)
    } else {
        Err(ClientError::InvalidToken)
    }
}

/// Whether a progress document says that the snapshot is ready: its
/// `status` member is a text equal to `ready` up to ASCII case.
pub open spec fn progress_ready(doc: JsonModel) -> bool {
    match doc {
        JsonModel::Object(m) => m.contains_key("status"@) && match m["status"@] {
            JsonModel::Str(s) => eq_ignore_ascii_case(s, "ready"@),
            _ => false,
        },
        _ => false,
    }
}

/// Reads a progress report: an error where it is no JSON document, else
/// whether it says that the snapshot is ready.
pub fn progress_is_ready(body: &str) -> (r: Result<bool, ClientError>)
    ensures
        match json_text_model(body@) {
            Some(doc) => r == Ok::<bool, ClientError>(progress_ready(doc)),
            None => r matches Err(ClientError::ProgressParse),
        },
{
    match parse_json(body) {
        None => Err(ClientError::ProgressParse),
        Some(doc) => {
            let ready = match json_get(&doc, "status") {
                Some(status) => match json_as_str(status) {
                    Some(s) => str_eq_ignore_ascii_case(s, "ready"),
                    None => false,
                },
                None => false,
            };
            Ok(ready)
        },
    }
}

} // verus!
