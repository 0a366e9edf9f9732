//! The Anthropic-dialect adapter core: event-stream frame decoding (typed
//! events, only `content_block_delta` carries text), request composition
//! (system text in its own field, one user message), error text, and the
//! non-streaming fix-suggestion path.  The HTTP transport lives outside the
//! library; everything here is computation on plain values.

use vstd::prelude::*;

use crate::client::{dec_seq, dec_string, push_message, CompletionRequest, ErrorKind,
    ProviderMessage};
use crate::compose::{build_context_block, build_fix_user_text, build_history_block, context_block,
    fix_user_text, history_block, no_response, no_response_text, sentinel_system_prompt,
    sentinel_system_text};
use crate::frame::{data_payload, data_payload_exec, is_done, is_done_exec};
use crate::text::{join_exec, joined, str_eq_exec};

verus! {

/// What the typed-event parser reads out of one JSON payload: the `"type"`
/// string and the optional `"delta"."text"` string.  A function of the
/// payload bytes alone.
pub uninterp spec fn typed_event_fields(payload: Seq<u8>) -> Option<(Seq<char>, Option<Seq<char>>)>;

/// Relies on `serde_json::from_slice` and `serde_json::Value::{get, as_str}`:
/// reads the `"type"` string and the optional `"delta"."text"` string of one
/// event payload; a payload that is not a JSON object with a string `"type"`
/// field yields nothing.
#[verifier::external_body]
fn parse_typed_event(payload: &[u8]) -> (r: Option<(String, Option<String>)>)
    ensures
        r.deep_view() == typed_event_fields(payload@),
{
    let v: serde_json::Value = serde_json::from_slice(payload).ok()?;
    let t = v.get("type")?.as_str()?.to_owned();
    let text = v
        .get("delta")
        .and_then(|d| d.get("text"))
        .and_then(|s| s.as_str())
        .map(|s| s.to_owned());
    Some((t, text))
}

/// The event type whose payloads carry user-visible text.
pub open spec fn content_event_type() -> Seq<char> {
    "content_block_delta"@
}

/// The fragments of one parsed event: a content delta carries its text and
/// is malformed without it; every other event carries nothing.
pub open spec fn event_frags(fields: Option<(Seq<char>, Option<Seq<char>>)>) -> Option<
    Seq<Seq<char>>,
> {
    match fields {
        None => Some(seq![]),
        Some(f) => if f.0 == content_event_type() {
            match f.1 {
                Some(t) => Some(seq![t]),
                None => None,
            }
        } else {
            Some(seq![])
        },
    }
}

/// The fragments of one raw line of this dialect's event stream; `None` is
/// a decode error.
pub open spec fn line_frags(line: Seq<u8>) -> Option<Seq<Seq<char>>> {
    match data_payload(line) {
        None => Some(seq![]),
        Some(p) => if is_done(p) {
            Some(seq![])
        } else {
            event_frags(typed_event_fields(p))
        },
    }
}

/// Classifies one parsed event, exactly as `event_frags` states: only a
/// content delta contributes text, and a content delta without text is a
/// decode error rather than a silent drop.
pub fn classify_event(t: String, text: Option<String>) -> (r: Result<Vec<String>, ErrorKind>)
    ensures
        match r {
            Ok(v) => event_frags(Some((t@, text.deep_view()))) == Some(v.deep_view()),
            Err(e) => event_frags(Some((t@, text.deep_view()))) is None && e is Decode,
        },
{
    if str_eq_exec(t.as_str(), "content_block_delta") {
        match text {
            Some(s) => {
                let ghost sv = s@;
                let mut v: Vec<String> = Vec::new();
                v.push(s);
                proof {
                    assert(v.deep_view() =~= seq![sv]);
                }
                Ok(v)
            },
            None => Err(ErrorKind::Decode),
        }
    } else {
        let v: Vec<String> = Vec::new();
        proof {
            assert(v.deep_view() =~= Seq::<Seq<char>>::empty());
        }
        Ok(v)
    }
}

/// Decodes one line of the event stream.  Lines without the `data: ` marker
/// and unparsable payloads are tolerated as non-content events; the literal
/// terminal sentinel is ignored rather than decoded.
pub fn decode_line(line: &[u8]) -> (r: Result<Vec<String>, ErrorKind>)
    ensures
        match r {
            Ok(v) => line_frags(line@) == Some(v.deep_view()),
            Err(e) => line_frags(line@) is None && e is Decode,
        },
{
    match data_payload_exec(line) {
        None => {
            let v: Vec<String> = Vec::new();
            proof {
                assert(v.deep_view() =~= Seq::<Seq<char>>::empty());
            }
            Ok(v)
        },
        Some(p) => {
            if is_done_exec(p) {
                let v: Vec<String> = Vec::new();
                proof {
                    assert(v.deep_view() =~= Seq::<Seq<char>>::empty());
                }
                return Ok(v);
            }
            match parse_typed_event(p) {
                None => {
                    let v: Vec<String> = Vec::new();
                    proof {
                        assert(v.deep_view() =~= Seq::<Seq<char>>::empty());
                    }
                    Ok(v)
                },
                Some((t, text)) => {
                    proof {
                        assert(typed_event_fields(p@) == Some((t@, text.deep_view())));
                    }
                    classify_event(t, text)
                },
            }
        },
    }
}

/// The sections folded into this provider's system text, in order: the
/// request's own system prompt, then context files, then shell history.
pub open spec fn system_sections(
    sys: Seq<char>,
    files: Seq<(Seq<char>, Seq<char>)>,
    hist: Seq<Seq<char>>,
) -> Seq<Seq<char>> {
    let s0 = seq![sys];
    let s1 = if files.len() > 0 {
        s0.push(context_block(files))
    } else {
        s0
    };
    if hist.len() > 0 {
        s1.push(history_block(hist))
    } else {
        s1
    }
}

/// This provider's system text: the sections joined by blank lines.
pub open spec fn system_text(
    sys: Seq<char>,
    files: Seq<(Seq<char>, Seq<char>)>,
    hist: Seq<Seq<char>>,
) -> Seq<char> {
    joined(system_sections(sys, files, hist), "\n\n"@)
}

/// Builds the message list and the separate system text for a request:
/// a single user message carrying the query, with context and history
/// folded into the system text.
pub fn build_messages_and_system(req: &CompletionRequest) -> (r: (Vec<ProviderMessage>, String))
    ensures
        r.0.deep_view() == seq![("user"@, req.user_query@)],
        r.1@ == system_text(
            req.system_prompt@,
            req.context_files.deep_view(),
            req.history.deep_view(),
        ),
{
    let mut parts: Vec<String> = Vec::new();
    parts.push(req.system_prompt.clone());
    if req.context_files.len() > 0 {
        let cb = build_context_block(&req.context_files);
        parts.push(cb);
    }
    if req.history.len() > 0 {
        let hb = build_history_block(&req.history);
        parts.push(hb);
    }
    proof {
        assert(req.context_files.deep_view().len() == req.context_files@.len());
        assert(req.history.deep_view().len() == req.history@.len());
        assert(parts.deep_view() =~= system_sections(
            req.system_prompt@,
            req.context_files.deep_view(),
            req.history.deep_view(),
        ));
    }
    let system = join_exec(&parts, "\n\n");
    let mut messages: Vec<ProviderMessage> = Vec::new();
    push_message(&mut messages, "user", req.user_query.clone());
    proof {
        assert(messages.deep_view() =~= seq![("user"@, req.user_query@)]);
    }
    (messages, system)
}

/// Builds the single-message fix-suggestion request and its system text.
pub fn build_fix_messages(error_log: &str) -> (r: (Vec<ProviderMessage>, String))
    ensures
        r.0.deep_view() == seq![("user"@, fix_user_text(error_log@))],
        r.1@ == sentinel_system_text(),
{
    let user = build_fix_user_text(error_log);
    let ghost uv = user@;
    let mut messages: Vec<ProviderMessage> = Vec::new();
    push_message(&mut messages, "user", user);
    proof {
        assert(messages.deep_view() =~= seq![("user"@, uv)]);
    }
    (messages, sentinel_system_prompt())
}

/// What the non-streaming response parser reads out of a body: the `"text"`
/// string of each element of the top-level `"content"` array.
pub uninterp spec fn content_texts(body: Seq<u8>) -> Option<Seq<Option<Seq<char>>>>;

/// Relies on `serde_json::from_slice` and `serde_json::Value::{get, as_str,
/// as_array}`: reads each `"content"` element's optional `"text"` string of
/// a non-streaming response body.
#[verifier::external_body]
fn parse_content_texts(body: &[u8]) -> (r: Option<Vec<Option<String>>>)
    ensures
        r.deep_view() == content_texts(body@),
{
    let v: serde_json::Value = serde_json::from_slice(body).ok()?;
    let items = v.get("content")?.as_array()?;
    Some(
        items
            .iter()
            .map(|c| c.get("text").and_then(|t| t.as_str()).map(|s| s.to_owned()))
            .collect(),
    )
}

/// The suggestion carried by a non-streaming response body: the first
/// content item's text, or the fixed fallback when the provider returned
/// none.  Never an error.
pub open spec fn suggestion_of(body: Seq<u8>) -> Seq<char> {
    match content_texts(body) {
        Some(ts) => if ts.len() > 0 {
            match ts[0] {
                Some(t) => t,
                None => no_response_text(),
            }
        } else {
            no_response_text()
        },
        None => no_response_text(),
    }
}

/// Extracts the fix suggestion from a non-streaming response body.
pub fn fix_suggestion_from_body(body: &[u8]) -> (r: String)
    ensures
        r@ == suggestion_of(body@),
{
    match parse_content_texts(body) {
        Some(items) => {
            if items.len() > 0 {
                proof {
                    assert(content_texts(body@) matches Some(ts) && ts[0] == items@[0].deep_view());
                }
                match &items[0] {
                    Some(t) => t.clone(),
                    None => no_response(),
                }
            } else {
                proof {
                    assert(content_texts(body@) matches Some(ts) && ts.len() == 0);
                }
                no_response()
            }
        },
        None => no_response(),
    }
}

/// The text of a connection failure, naming the likely causes.
pub open spec fn connection_text(detail: Seq<char>) -> Seq<char> {
    "Failed to connect to Anthropic: "@ + detail
        + ". Check your internet connection and API key."@
}

/// Composes the connection-failure error for this provider.
pub fn connection_error(detail: &str) -> (r: ErrorKind)
    ensures
        r matches ErrorKind::Connection { message } && message@ == connection_text(detail@),
{
    let mut m = String::new();
    m.append("Failed to connect to Anthropic: ");
    m.append(detail);
    m.append(". Check your internet connection and API key.");
    ErrorKind::Connection { message: m }
}

/// The text of a non-success status, quoting status and body verbatim and
/// naming the credential to check.
pub open spec fn status_text(status: nat, body: Seq<char>) -> Seq<char> {
    "Anthropic API error (status "@ + dec_seq(status) + "): "@ + body
        + ". Check your AETHER_ANTHROPIC_API_KEY."@
}

/// Renders the non-success-status message for this provider.
pub fn status_error_message(status: u16, body: &str) -> (r: String)
    ensures
        r@ == status_text(status as nat, body@),
{
    let mut m = String::new();
    m.append("Anthropic API error (status ");
    let d = dec_string(status);
    m.append(d.as_str());
    m.append("): ");
    m.append(body);
    m.append(". Check your AETHER_ANTHROPIC_API_KEY.");
    m
}

/// The error reported when the credential variable is absent.
pub fn missing_key_error() -> (r: ErrorKind)
    ensures
        r matches ErrorKind::Configuration { variable } && variable@
            == "AETHER_ANTHROPIC_API_KEY"@,
{
    ErrorKind::Configuration { variable: "AETHER_ANTHROPIC_API_KEY".to_owned() }
}

/// The messages endpoint, for both the streaming and the single-shot call.
pub fn messages_endpoint() -> (r: &'static str)
    ensures
        r@ == "https://api.anthropic.com/v1/messages"@,
{
    "https://api.anthropic.com/v1/messages"
}

} // verus!
