//! The post-request websocket client: how a post request is framed, how a
//! received frame is routed, and what the reader does when the stream ends.

use vstd::prelude::*;
use crate::error::{Error, error_text};
use crate::text::{decimal, decimal_string, decimal_value, lemma_decimal_reads_back};

verus! {

/// The payload of a `post` channel message: the id of the request it answers
/// and the response, as JSON text.
#[derive(Clone, Debug, PartialEq, Eq)]
pub struct PostData {
    pub id: u64,
    pub response: String,
}

/// A message received on the post channel.
#[derive(Clone, Debug, PartialEq, Eq)]
pub enum PostResponseMessage {
    NoData,
    Post { data: PostData },
    Pong,
    HyperliquidError(String),
}

/// Seconds between two pings.
pub const SEND_PING_INTERVAL: u64 = 50;

/// Seconds the reader waits before it reconnects after the stream ended.
pub const RECONNECT_DELAY_SECS: u64 = 1;

/// What `serde_json` gives for `text`: `text` parsed as a JSON value and
/// written back in compact form, or the text of the parse error.
pub uninterp spec fn json_compact(text: Seq<char>) -> Result<Seq<char>, Seq<char>>;

/// The mathematical form of a result whose two sides are strings.
pub open spec fn text_result_view(r: Result<String, String>) -> Result<Seq<char>, Seq<char>> {
    match r {
        Ok(s) => Ok(s@),
        Err(e) => Err(e@),
    }
}

/// Parses `text` with `serde_json::from_str::<serde_json::Value>` and writes
/// the value back with `serde_json::to_string`; on a parse error returns the
/// error's text. The result is named `json_compact`; nothing more of it is
/// stated.
#[verifier::external_body]
fn compact_json(text: &str) -> (r: Result<String, String>)
    ensures
        text_result_view(r) == json_compact(text@),
{
    match serde_json::from_str::<serde_json::Value>(text) {
        Ok(v) => serde_json::to_string(&v).map_err(|e| e.to_string()),
        Err(e) => Err(e.to_string()),
    }
}

/// The JSON text of a post request: method `post`, the request id, and the
/// request body (already in compact JSON form).
pub open spec fn post_frame(id: u64, request: Seq<char>) -> Seq<char> {
    "{\"method\":\"post\",\"id\":"@ + decimal(id as nat) + ",\"request\":"@ + request + "}"@
}

/// The payload that sends `data` (JSON text) as post request `id`. Fails
/// with `JsonParse` exactly when `data` is not JSON.
pub fn post_request_payload(id: u64, data: &str) -> (r: Result<String, Error>)
    ensures
        match json_compact(data@) {
            Ok(body) => r matches Ok(p) && p@ == post_frame(id, body),
            Err(e) => r matches Err(Error::JsonParse(m)) && m@ == e,
        },
{
    match compact_json(data) {
        Ok(body) => {
            let mut p = String::from_str("{\"method\":\"post\",\"id\":");
            p.append(decimal_string(id).as_str());
            p.append(",\"request\":");
            p.append(body.as_str());
            p.append("}");
            Ok(p)
        },
        Err(e) => Err(Error::JsonParse(e)),
    }
}

/// The JSON text of a ping.
pub fn ping_payload() -> (r: String)
    ensures
        r@ == "{\"method\":\"ping\"}"@,
{
    String::from_str("{\"method\":\"ping\"}")
}

/// A frame as the reader hands it over: its text, the error of turning it
/// into text, or the error the reader reported.
pub enum ReadOutcome {
    Text(String),
    NotText(String),
    Failed(String),
}

/// What to do with a received frame.
#[derive(Debug, PartialEq, Eq)]
pub enum Incoming {
    /// Not a JSON object: drop it.
    Ignore,
    /// A JSON object: parse it as a [`PostResponseMessage`] and forward it.
    Parse(String),
    /// Forward this message as it is.
    Forward(PostResponseMessage),
}

/// Routes a received frame: text that starts with `{` is to be parsed, other
/// text is dropped, and a failure is forwarded as a `HyperliquidError`
/// holding the text of the matching [`Error`].
pub fn route_incoming(outcome: ReadOutcome) -> (r: Incoming)
    ensures
        match outcome {
            ReadOutcome::Text(t) => if t@.len() > 0 && t@[0] == '{' {
                r matches Incoming::Parse(s) && s@ == t@
            } else {
                r matches Incoming::Ignore
            },
            ReadOutcome::NotText(e) => r matches Incoming::Forward(
                PostResponseMessage::HyperliquidError(m),
            ) && m@ == error_text(Error::ReaderTextConversion(e)),
            ReadOutcome::Failed(e) => r matches Incoming::Forward(
                PostResponseMessage::HyperliquidError(m),
            ) && m@ == error_text(Error::GenericReader(e)),
        },
{
    match outcome {
        ReadOutcome::Text(t) => {
            if t.as_str().unicode_len() > 0 && t.as_str().get_char(0) == '{' {
                Incoming::Parse(t)
            } else {
                Incoming::Ignore
            }
        },
        ReadOutcome::NotText(e) => {
            let m = Error::ReaderTextConversion(e).message();
            Incoming::Forward(PostResponseMessage::HyperliquidError(m))
        },
        ReadOutcome::Failed(e) => {
            let m = Error::GenericReader(e).message();
            Incoming::Forward(PostResponseMessage::HyperliquidError(m))
        },
    }
}

/// What the reader does when the stream has ended.
#[derive(Debug, PartialEq, Eq)]
pub enum StreamEnd {
    /// Wait this many seconds, then connect again.
    Reconnect { delay_secs: u64 },
    /// Stop reading.
    Exit,
}

/// When the stream ends, the reader reconnects after one second if
/// reconnecting is enabled, and stops otherwise.
pub fn on_stream_end(reconnect: bool) -> (r: StreamEnd)
    ensures
        reconnect ==> r == (StreamEnd::Reconnect { delay_secs: RECONNECT_DELAY_SECS }),
        !reconnect ==> r == StreamEnd::Exit,
{
    if reconnect {
        StreamEnd::Reconnect { delay_secs: RECONNECT_DELAY_SECS }
    } else {
        StreamEnd::Exit
    }
}

/// A post frame is `{"method":"post","id":`, then the decimal digits of the
/// id (which read back as the id), then `,"request":`, then the request
/// body unchanged, then `}`.
pub proof fn lemma_post_frame(id: u64, body: Seq<char>)
    ensures
        ({
            let f = post_frame(id, body);
            exists|k: int|
                #![trigger f.subrange(22, k)]
                22 < k && k + 12 + body.len() == f.len() && f.subrange(0, 22)
                    == "{\"method\":\"post\",\"id\":"@ && (forall|i: int|
                    22 <= i < k ==> '0' <= #[trigger] f[i] <= '9') && decimal_value(
                    f.subrange(22, k),
                ) == id && f.subrange(k, k + 11) == ",\"request\":"@ && f.subrange(
                    k + 11,
                    k + 11 + body.len(),
                ) == body && f[f.len() - 1] == '}'
        }),
{
    reveal_strlit("{\"method\":\"post\",\"id\":");
    reveal_strlit(",\"request\":");
    reveal_strlit("}");
    lemma_decimal_reads_back(id as nat);
    let f = post_frame(id, body);
    let d = decimal(id as nat);
    let k: int = 22 + d.len() as int;
    assert(f.subrange(0, 22) =~= "{\"method\":\"post\",\"id\":"@);
    assert(f.subrange(22, k) =~= d);
    assert(f.subrange(k, k + 11) =~= ",\"request\":"@);
    assert(f.subrange(k + 11, k + 11 + body.len()) =~= body);
    assert forall|i: int| 22 <= i < k implies '0' <= #[trigger] f[i] <= '9' by {
        assert(f[i] == d[i - 22]);
    }
}

} // verus!
