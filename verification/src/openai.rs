//! The OpenAI-dialect adapter core: event-stream frame decoding (every
//! `data: ` payload short of the terminal sentinel is content-bearing, so a
//! payload that fails to parse is a decode error), request composition as a
//! flat message list, error text, and the non-streaming fix-suggestion
//! path.

use vstd::prelude::*;

use crate::client::{dec_seq, dec_string, push_message, CompletionRequest, ErrorKind,
    ProviderMessage};
use crate::compose::{build_context_block, build_fix_user_text, build_history_block, context_block,
    fix_user_text, history_block, no_response, no_response_text, sentinel_system_prompt,
    sentinel_system_text};
use crate::frame::{data_payload, data_payload_exec, is_done, is_done_exec};
use crate::text::{flatten_somes, flatten_somes_exec};

verus! {

/// What the stream-chunk parser reads out of one JSON payload: for each
/// element of `"choices"`, its optional `"delta"."content"` string.  A
/// function of the payload bytes alone.
pub uninterp spec fn delta_contents(payload: Seq<u8>) -> Option<Seq<Option<Seq<char>>>>;

/// Relies on `serde_json::from_slice` and `serde_json::Value::{get, as_str,
/// as_array}`: reads each choice's optional `"delta"."content"` string of
/// one stream chunk; a payload without a `"choices"` array yields nothing.
#[verifier::external_body]
fn parse_delta_contents(payload: &[u8]) -> (r: Option<Vec<Option<String>>>)
    ensures
        r.deep_view() == delta_contents(payload@),
{
    let v: serde_json::Value = serde_json::from_slice(payload).ok()?;
    let choices = v.get("choices")?.as_array()?;
    Some(
        choices
            .iter()
            .map(|c| c.get("delta").and_then(|d| d.get("content")).and_then(|s| s.as_str()).map(
                |s| s.to_owned(),
            ))
            .collect(),
    )
}

/// The fragments of one raw line of this dialect's event stream: all the
/// choices' delta texts in the order given; `None` is a decode error, since
/// every non-sentinel payload here should carry content.
pub open spec fn line_frags(line: Seq<u8>) -> Option<Seq<Seq<char>>> {
    match data_payload(line) {
        None => Some(seq![]),
        Some(p) => if is_done(p) {
            Some(seq![])
        } else {
            match delta_contents(p) {
                Some(cs) => Some(flatten_somes(cs)),
                None => None,
            }
        },
    }
}

/// Decodes one line of the event stream.  Lines without the `data: ` marker
/// are skipped; the literal terminal sentinel is ignored rather than
/// decoded; a payload that should carry content but cannot be parsed aborts
/// with a decode error.
pub fn decode_line(line: &[u8]) -> (r: Result<Vec<String>, ErrorKind>)
    ensures
        match r {
            Ok(v) => line_frags(line@) == Some(v.deep_view()),
            Err(e) => line_frags(line@) is None && e is Decode,
        },
{
    match data_payload_exec(line) {
        None => {
            let v: Vec<String> = Vec::new();
            proof {
                assert(v.deep_view() =~= Seq::<Seq<char>>::empty());
            }
            Ok(v)
        },
        Some(p) => {
            if is_done_exec(p) {
                let v: Vec<String> = Vec::new();
                proof {
                    assert(v.deep_view() =~= Seq::<Seq<char>>::empty());
                }
                return Ok(v);
            }
            match parse_delta_contents(p) {
                Some(cs) => {
                    proof {
                        assert(delta_contents(p@) == Some(cs.deep_view()));
                    }
                    Ok(flatten_somes_exec(cs))
                },
                None => Err(ErrorKind::Decode),
            }
        },
    }
}

/// The message list of a request: the system prompt, an optional context
/// block and an optional history block as further system messages, then the
/// user query.
pub open spec fn message_list(
    sys: Seq<char>,
    files: Seq<(Seq<char>, Seq<char>)>,
    hist: Seq<Seq<char>>,
    query: Seq<char>,
) -> Seq<(Seq<char>, Seq<char>)> {
    let m0 = seq![("system"@, sys)];
    let m1 = if files.len() > 0 {
        m0.push(("system"@, context_block(files)))
    } else {
        m0
    };
    let m2 = if hist.len() > 0 {
        m1.push(("system"@, history_block(hist)))
    } else {
        m1
    };
    m2.push(("user"@, query))
}

/// Builds the chat messages for a request, exactly as `message_list`
/// states.
pub fn build_messages(req: &CompletionRequest) -> (r: Vec<ProviderMessage>)
    ensures
        r.deep_view() == message_list(
            req.system_prompt@,
            req.context_files.deep_view(),
            req.history.deep_view(),
            req.user_query@,
        ),
{
    let mut messages: Vec<ProviderMessage> = Vec::new();
    push_message(&mut messages, "system", req.system_prompt.clone());
    if req.context_files.len() > 0 {
        let cb = build_context_block(&req.context_files);
        push_message(&mut messages, "system", cb);
    }
    if req.history.len() > 0 {
        let hb = build_history_block(&req.history);
        push_message(&mut messages, "system", hb);
    }
    push_message(&mut messages, "user", req.user_query.clone());
    proof {
        assert(req.context_files.deep_view().len() == req.context_files@.len());
        assert(req.history.deep_view().len() == req.history@.len());
        assert(messages.deep_view() =~= message_list(
            req.system_prompt@,
            req.context_files.deep_view(),
            req.history.deep_view(),
            req.user_query@,
        ));
    }
    messages
}

/// The fixed two-message fix-suggestion request.
pub fn build_fix_messages(error_log: &str) -> (r: Vec<ProviderMessage>)
    ensures
        r.deep_view() == seq![
            ("system"@, sentinel_system_text()),
            ("user"@, fix_user_text(error_log@)),
        ],
{
    let mut messages: Vec<ProviderMessage> = Vec::new();
    push_message(&mut messages, "system", sentinel_system_prompt());
    let user = build_fix_user_text(error_log);
    push_message(&mut messages, "user", user);
    proof {
        assert(messages.deep_view() =~= seq![
            ("system"@, sentinel_system_text()),
            ("user"@, fix_user_text(error_log@)),
        ]);
    }
    messages
}

/// What the non-streaming response parser reads out of a body: for each
/// element of `"choices"`, its optional `"message"."content"` string.
pub uninterp spec fn message_contents(body: Seq<u8>) -> Option<Seq<Option<Seq<char>>>>;

/// Relies on `serde_json::from_slice` and `serde_json::Value::{get, as_str,
/// as_array}`: reads each choice's optional `"message"."content"` string of
/// a non-streaming response body.
#[verifier::external_body]
fn parse_message_contents(body: &[u8]) -> (r: Option<Vec<Option<String>>>)
    ensures
        r.deep_view() == message_contents(body@),
{
    let v: serde_json::Value = serde_json::from_slice(body).ok()?;
    let choices = v.get("choices")?.as_array()?;
    Some(
        choices
            .iter()
            .map(|c| c.get("message").and_then(|m| m.get("content")).and_then(|s| s.as_str()).map(
                |s| s.to_owned(),
            ))
            .collect(),
    )
}

/// The suggestion carried by a non-streaming response body: the first
/// choice's message text, or the fixed fallback.  Never an error.
pub open spec fn suggestion_of(body: Seq<u8>) -> Seq<char> {
    match message_contents(body) {
        Some(cs) => if cs.len() > 0 {
            match cs[0] {
                Some(t) => t,
                None => no_response_text(),
            }
        } else {
            no_response_text()
        },
        None => no_response_text(),
    }
}

/// Extracts the fix suggestion from a non-streaming response body.
pub fn fix_suggestion_from_body(body: &[u8]) -> (r: String)
    ensures
        r@ == suggestion_of(body@),
{
    match parse_message_contents(body) {
        Some(items) => {
            if items.len() > 0 {
                proof {
                    assert(message_contents(body@) matches Some(cs) && cs[0]
                        == items@[0].deep_view());
                }
                match &items[0] {
                    Some(t) => t.clone(),
                    None => no_response(),
                }
            } else {
                proof {
                    assert(message_contents(body@) matches Some(cs) && cs.len() == 0);
                }
                no_response()
            }
        },
        None => no_response(),
    }
}

/// The text of a connection failure, naming the likely causes.
pub open spec fn connection_text(detail: Seq<char>) -> Seq<char> {
    "Failed to connect to OpenAI: "@ + detail + ". Check your internet connection and API key."@
}

/// Composes the connection-failure error for this provider.
pub fn connection_error(detail: &str) -> (r: ErrorKind)
    ensures
        r matches ErrorKind::Connection { message } && message@ == connection_text(detail@),
{
    let mut m = String::new();
    m.append("Failed to connect to OpenAI: ");
    m.append(detail);
    m.append(". Check your internet connection and API key.");
    ErrorKind::Connection { message: m }
}

/// The text of a non-success status, quoting status and body verbatim and
/// naming the credential to check.
pub open spec fn status_text(status: nat, body: Seq<char>) -> Seq<char> {
    "OpenAI API error (status "@ + dec_seq(status) + "): "@ + body
        + ". Check your AETHER_OPENAI_API_KEY."@
}

/// Renders the non-success-status message for this provider.
pub fn status_error_message(status: u16, body: &str) -> (r: String)
    ensures
        r@ == status_text(status as nat, body@),
{
    let mut m = String::new();
    m.append("OpenAI API error (status ");
    let d = dec_string(status);
    m.append(d.as_str());
    m.append("): ");
    m.append(body);
    m.append(". Check your AETHER_OPENAI_API_KEY.");
    m
}

/// The error reported when the credential variable is absent.
pub fn missing_key_error() -> (r: ErrorKind)
    ensures
        r matches ErrorKind::Configuration { variable } && variable@ == "AETHER_OPENAI_API_KEY"@,
{
    ErrorKind::Configuration { variable: "AETHER_OPENAI_API_KEY".to_owned() }
}

/// The chat-completions endpoint, for both the streaming and the
/// single-shot call.
pub fn chat_endpoint() -> (r: &'static str)
    ensures
        r@ == "https://api.openai.com/v1/chat/completions"@,
{
    "https://api.openai.com/v1/chat/completions"
}

} // verus!
