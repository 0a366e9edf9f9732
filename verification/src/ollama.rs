//! The local-model adapter core: line-delimited-JSON frame decoding (one
//! JSON object per line, blank and unparsable lines skipped for
//! resilience), request composition as a flat message list, error text, and
//! the non-streaming fix-suggestion path.  No credential is involved; the
//! endpoint is derived from a configured base URL.

use vstd::prelude::*;

use crate::client::{dec_seq, dec_string, push_message, CompletionRequest, ErrorKind,
    ProviderMessage};
use crate::compose::{build_context_block, build_fix_user_text, build_history_block, context_block,
    fix_user_text, history_block, no_response, no_response_text, sentinel_system_prompt,
    sentinel_system_text};
use crate::frame::{strip_cr, strip_cr_exec};
use crate::text::{trimmed_bytes, trim_bytes_exec};

verus! {

/// What the chat-line parser reads out of one JSON line: the optional
/// `"message"."content"` string.  A function of the line's bytes alone.
pub uninterp spec fn chat_content(line: Seq<u8>) -> Option<Option<Seq<char>>>;

/// Relies on `serde_json::from_slice` and `serde_json::Value::{get,
/// as_str}`: reads the optional `"message"."content"` string of one JSON
/// line; a line that is not JSON yields nothing.  The `"done"` flag is
/// informational only and is not read: the authoritative end-of-stream
/// signal is the closing of the connection.
#[verifier::external_body]
fn parse_chat_content(line: &[u8]) -> (r: Option<Option<String>>)
    ensures
        r.deep_view() == chat_content(line@),
{
    let v: serde_json::Value = serde_json::from_slice(line).ok()?;
    Some(
        v.get("message")
            .and_then(|m| m.get("content"))
            .and_then(|s| s.as_str())
            .map(|s| s.to_owned()),
    )
}

/// The fragments of one raw line of this dialect: its message content if
/// the line parses and carries one; blank and unparsable lines are skipped,
/// so this dialect never raises a decode error.
pub open spec fn line_frags(line: Seq<u8>) -> Option<Seq<Seq<char>>> {
    let l = strip_cr(line);
    if trimmed_bytes(l).len() == 0 {
        Some(seq![])
    } else {
        match chat_content(l) {
            Some(Some(c)) => Some(seq![c]),
            Some(None) => Some(seq![]),
            None => Some(seq![]),
        }
    }
}

/// Decodes one line of the line-delimited-JSON stream.
pub fn decode_line(line: &[u8]) -> (r: Result<Vec<String>, ErrorKind>)
    ensures
        match r {
            Ok(v) => line_frags(line@) == Some(v.deep_view()),
            Err(e) => line_frags(line@) is None && e is Decode,
        },
{
    let l = strip_cr_exec(line);
    let t = trim_bytes_exec(l);
    if t.len() == 0 {
        let v: Vec<String> = Vec::new();
        proof {
            assert(v.deep_view() =~= Seq::<Seq<char>>::empty());
        }
        return Ok(v);
    }
    match parse_chat_content(l) {
        Some(Some(c)) => {
            let ghost cv = c@;
            proof {
                assert(chat_content(l@) == Some(Some(cv)));
            }
            let mut v: Vec<String> = Vec::new();
            v.push(c);
            proof {
                assert(v.deep_view() =~= seq![cv]);
            }
            Ok(v)
        },
        Some(None) => {
            proof {
                assert(chat_content(l@) == Some(None::<Seq<char>>));
            }
            let v: Vec<String> = Vec::new();
            proof {
                assert(v.deep_view() =~= Seq::<Seq<char>>::empty());
            }
            Ok(v)
        },
        None => {
            let v: Vec<String> = Vec::new();
            proof {
                assert(v.deep_view() =~= Seq::<Seq<char>>::empty());
            }
            Ok(v)
        },
    }
}

/// The message list of a request: the system prompt, an optional context
/// block and an optional history block as further system messages, then the
/// user query.
pub open spec fn message_list(
    sys: Seq<char>,
    files: Seq<(Seq<char>, Seq<char>)>,
    hist: Seq<Seq<char>>,
    query: Seq<char>,
) -> Seq<(Seq<char>, Seq<char>)> {
    let m0 = seq![("system"@, sys)];
    let m1 = if files.len() > 0 {
        m0.push(("system"@, context_block(files)))
    } else {
        m0
    };
    let m2 = if hist.len() > 0 {
        m1.push(("system"@, history_block(hist)))
    } else {
        m1
    };
    m2.push(("user"@, query))
}

/// Builds the chat messages for a request, exactly as `message_list`
/// states.
pub fn build_messages(req: &CompletionRequest) -> (r: Vec<ProviderMessage>)
    ensures
        r.deep_view() == message_list(
            req.system_prompt@,
            req.context_files.deep_view(),
            req.history.deep_view(),
            req.user_query@,
        ),
{
    let mut messages: Vec<ProviderMessage> = Vec::new();
    push_message(&mut messages, "system", req.system_prompt.clone());
    if req.context_files.len() > 0 {
        let cb = build_context_block(&req.context_files);
        push_message(&mut messages, "system", cb);
    }
    if req.history.len() > 0 {
        let hb = build_history_block(&req.history);
        push_message(&mut messages, "system", hb);
    }
    push_message(&mut messages, "user", req.user_query.clone());
    proof {
        assert(req.context_files.deep_view().len() == req.context_files@.len());
        assert(req.history.deep_view().len() == req.history@.len());
        assert(messages.deep_view() =~= message_list(
            req.system_prompt@,
            req.context_files.deep_view(),
            req.history.deep_view(),
            req.user_query@,
        ));
    }
    messages
}

/// The fixed two-message fix-suggestion request.
pub fn build_fix_messages(error_log: &str) -> (r: Vec<ProviderMessage>)
    ensures
        r.deep_view() == seq![
            ("system"@, sentinel_system_text()),
            ("user"@, fix_user_text(error_log@)),
        ],
{
    let mut messages: Vec<ProviderMessage> = Vec::new();
    push_message(&mut messages, "system", sentinel_system_prompt());
    let user = build_fix_user_text(error_log);
    push_message(&mut messages, "user", user);
    proof {
        assert(messages.deep_view() =~= seq![
            ("system"@, sentinel_system_text()),
            ("user"@, fix_user_text(error_log@)),
        ]);
    }
    messages
}

/// The suggestion carried by a non-streaming response body, which has the
/// same shape as one stream line: the message content, or the fixed
/// fallback.  Never an error.
pub open spec fn suggestion_of(body: Seq<u8>) -> Seq<char> {
    match chat_content(body) {
        Some(Some(c)) => c,
        Some(None) => no_response_text(),
        None => no_response_text(),
    }
}

/// Extracts the fix suggestion from a non-streaming response body.
pub fn fix_suggestion_from_body(body: &[u8]) -> (r: String)
    ensures
        r@ == suggestion_of(body@),
{
    match parse_chat_content(body) {
        Some(Some(c)) => {
            proof {
                assert(chat_content(body@) == Some(Some(c@)));
            }
            c
        },
        Some(None) => {
            proof {
                assert(chat_content(body@) == Some(None::<Seq<char>>));
            }
            no_response()
        },
        None => no_response(),
    }
}

/// The chat endpoint under a configured base URL.
pub open spec fn chat_endpoint_text(base_url: Seq<char>) -> Seq<char> {
    base_url + "/api/chat"@
}

/// Composes the chat endpoint from the configured base URL.
pub fn chat_endpoint(base_url: &str) -> (r: String)
    ensures
        r@ == chat_endpoint_text(base_url@),
{
    let mut r = String::new();
    r.append(base_url);
    r.append("/api/chat");
    r
}

/// The text of a connection failure, with its local remediation hint.
pub open spec fn connection_text(detail: Seq<char>) -> Seq<char> {
    "Failed to connect to Ollama: "@ + detail + ". Is Ollama running?"@
}

/// Composes the connection-failure error for this provider.
pub fn connection_error(detail: &str) -> (r: ErrorKind)
    ensures
        r matches ErrorKind::Connection { message } && message@ == connection_text(detail@),
{
    let mut m = String::new();
    m.append("Failed to connect to Ollama: ");
    m.append(detail);
    m.append(". Is Ollama running?");
    ErrorKind::Connection { message: m }
}

/// The text of a non-success status, quoting status and body verbatim.
pub open spec fn status_text(status: nat, body: Seq<char>) -> Seq<char> {
    "Ollama API error (status "@ + dec_seq(status) + "): "@ + body
}

/// Renders the non-success-status message for this provider.
pub fn status_error_message(status: u16, body: &str) -> (r: String)
    ensures
        r@ == status_text(status as nat, body@),
{
    let mut m = String::new();
    m.append("Ollama API error (status ");
    let d = dec_string(status);
    m.append(d.as_str());
    m.append("): ");
    m.append(body);
    m
}

} // verus!
