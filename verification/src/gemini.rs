//! The Gemini-dialect adapter core: line-delimited-JSON frame decoding
//! (each line may batch several candidates, each with several parts, all
//! emitted in the order given; blank and unparsable lines are skipped),
//! request composition (context and history folded into a single user
//! text, the system prompt in a separate instruction), error text, and the
//! non-streaming fix-suggestion path.

use vstd::prelude::*;

use crate::client::{dec_seq, dec_string, CompletionRequest, ErrorKind};
use crate::compose::{build_context_block, build_fix_user_text, build_history_block, context_block,
    fix_user_text, history_block, no_response, no_response_text, sentinel_system_prompt,
    sentinel_system_text};
use crate::frame::{strip_cr, strip_cr_exec};
use crate::text::{append_strings, flatten_somes, flatten_somes_exec, join_exec, joined,
    trim_bytes_exec, trimmed_bytes};

verus! {

/// What the stream-line parser reads out of one JSON line: for each element
/// of `"candidates"`, the optional `"text"` of each of its
/// `"content"."parts"`.  A function of the line's bytes alone.
pub uninterp spec fn candidate_parts(line: Seq<u8>) -> Option<Seq<Seq<Option<Seq<char>>>>>;

/// Relies on `serde_json::from_slice` and `serde_json::Value::{get, as_str,
/// as_array}`: reads each candidate's part texts of one JSON line; a line
/// without a `"candidates"` array yields nothing, and a candidate without
/// parts yields an empty list.
#[verifier::external_body]
fn parse_candidate_parts(line: &[u8]) -> (r: Option<Vec<Vec<Option<String>>>>)
    ensures
        r.deep_view() == candidate_parts(line@),
{
    let v: serde_json::Value = serde_json::from_slice(line).ok()?;
    let cands = v.get("candidates")?.as_array()?;
    let part_text = |p: &serde_json::Value| {
        p.get("text").and_then(|t| t.as_str()).map(|s| s.to_owned())
    };
    Some(
        cands
            .iter()
            .map(|c| match c.get("content").and_then(|x| x.get("parts")).and_then(|p| p.as_array())
            {
                Some(parts) => parts.iter().map(part_text).collect(),
                None => Vec::new(),
            })
            .collect(),
    )
}

/// All part texts of all candidates, candidate by candidate, in order.
pub open spec fn flatten_candidates(cands: Seq<Seq<Option<Seq<char>>>>) -> Seq<Seq<char>>
    decreases cands.len(),
{
    if cands.len() == 0 {
        Seq::empty()
    } else {
        flatten_somes(cands[0]) + flatten_candidates(cands.skip(1))
    }
}

pub proof fn lemma_flatten_candidates_push(
    cands: Seq<Seq<Option<Seq<char>>>>,
    x: Seq<Option<Seq<char>>>,
)
    ensures
        flatten_candidates(cands.push(x)) == flatten_candidates(cands) + flatten_somes(x),
    decreases cands.len(),
{
    if cands.len() == 0 {
        assert(cands.push(x)[0] == x);
        assert(cands.push(x).skip(1) =~= Seq::<Seq<Option<Seq<char>>>>::empty());
        assert(flatten_candidates(Seq::<Seq<Option<Seq<char>>>>::empty())
            =~= Seq::<Seq<char>>::empty());
        assert(flatten_candidates(cands.push(x)) =~= flatten_somes(x));
        assert(flatten_candidates(cands) + flatten_somes(x) =~= flatten_somes(x));
    } else {
        assert(cands.push(x)[0] == cands[0]);
        assert(cands.push(x).skip(1) =~= cands.skip(1).push(x));
        lemma_flatten_candidates_push(cands.skip(1), x);
        assert(flatten_somes(cands[0]) + (flatten_candidates(cands.skip(1)) + flatten_somes(x))
            =~= (flatten_somes(cands[0]) + flatten_candidates(cands.skip(1))) + flatten_somes(x));
    }
}

/// The fragments of one raw line of this dialect: every candidate's part
/// texts, in the order given; blank and unparsable lines are skipped, so
/// this dialect never raises a decode error.
pub open spec fn line_frags(line: Seq<u8>) -> Option<Seq<Seq<char>>> {
    let l = strip_cr(line);
    if trimmed_bytes(l).len() == 0 {
        Some(seq![])
    } else {
        match candidate_parts(l) {
            Some(cands) => Some(flatten_candidates(cands)),
            None => Some(seq![]),
        }
    }
}

/// Decodes one line of the line-delimited-JSON stream.
pub fn decode_line(line: &[u8]) -> (r: Result<Vec<String>, ErrorKind>)
    ensures
        match r {
            Ok(v) => line_frags(line@) == Some(v.deep_view()),
            Err(e) => line_frags(line@) is None && e is Decode,
        },
{
    let l = strip_cr_exec(line);
    let t = trim_bytes_exec(l);
    if t.len() == 0 {
        let v: Vec<String> = Vec::new();
        proof {
            assert(v.deep_view() =~= Seq::<Seq<char>>::empty());
        }
        return Ok(v);
    }
    match parse_candidate_parts(l) {
        Some(cands) => {
            proof {
                assert(candidate_parts(l@) == Some(cands.deep_view()));
            }
            let mut out: Vec<String> = Vec::new();
            let mut i: usize = 0;
            while i < cands.len()
                invariant
                    i <= cands.len(),
                    out.deep_view() =~= flatten_candidates(cands.deep_view().take(i as int)),
                decreases cands.len() - i,
            {
                proof {
                    assert(cands.deep_view().len() == cands@.len());
                    assert(cands.deep_view().take(i + 1) =~= cands.deep_view().take(
                        i as int,
                    ).push(cands.deep_view()[i as int]));
                    lemma_flatten_candidates_push(
                        cands.deep_view().take(i as int),
                        cands.deep_view()[i as int],
                    );
                    assert(cands.deep_view()[i as int] == cands@[i as int].deep_view());
                }
                let part = flatten_somes_exec(cands[i].clone());
                append_strings(&mut out, part);
                i = i + 1;
            }
            proof {
                assert(cands.deep_view().take(cands@.len() as int) =~= cands.deep_view());
            }
            Ok(out)
        },
        None => {
            let v: Vec<String> = Vec::new();
            proof {
                assert(v.deep_view() =~= Seq::<Seq<char>>::empty());
            }
            Ok(v)
        },
    }
}

/// The sections folded into the single user text, in order: shell history,
/// then context files, then the query itself.
pub open spec fn user_sections(
    files: Seq<(Seq<char>, Seq<char>)>,
    hist: Seq<Seq<char>>,
    query: Seq<char>,
) -> Seq<Seq<char>> {
    let s0 = seq![query];
    let s1 = if files.len() > 0 {
        seq![context_block(files)] + s0
    } else {
        s0
    };
    if hist.len() > 0 {
        seq![history_block(hist)] + s1
    } else {
        s1
    }
}

/// The single user text of a request: the sections joined by blank lines.
pub open spec fn user_text(
    files: Seq<(Seq<char>, Seq<char>)>,
    hist: Seq<Seq<char>>,
    query: Seq<char>,
) -> Seq<char> {
    joined(user_sections(files, hist, query), "\n\n"@)
}

/// Builds the request pair `(user text, system text)`: context and history
/// are folded into the user text, and the request's system prompt rides in
/// the separate system instruction.
pub fn build_request(req: &CompletionRequest) -> (r: (String, String))
    ensures
        r.0@ == user_text(req.context_files.deep_view(), req.history.deep_view(), req.user_query@),
        r.1@ == req.system_prompt@,
{
    let mut parts: Vec<String> = Vec::new();
    if req.history.len() > 0 {
        let hb = build_history_block(&req.history);
        parts.push(hb);
    }
    if req.context_files.len() > 0 {
        let cb = build_context_block(&req.context_files);
        parts.push(cb);
    }
    parts.push(req.user_query.clone());
    proof {
        assert(req.context_files.deep_view().len() == req.context_files@.len());
        assert(req.history.deep_view().len() == req.history@.len());
        assert(parts.deep_view() =~= user_sections(
            req.context_files.deep_view(),
            req.history.deep_view(),
            req.user_query@,
        ));
    }
    let user = join_exec(&parts, "\n\n");
    (user, req.system_prompt.clone())
}

/// Builds the fix-suggestion request pair `(user text, system text)`.
pub fn build_fix_request(error_log: &str) -> (r: (String, String))
    ensures
        r.0@ == fix_user_text(error_log@),
        r.1@ == sentinel_system_text(),
{
    (build_fix_user_text(error_log), sentinel_system_prompt())
}

/// The suggestion carried by a non-streaming response body: the first
/// part text of the first candidate, or the fixed fallback.  Never an
/// error.
pub open spec fn suggestion_of(body: Seq<u8>) -> Seq<char> {
    match candidate_parts(body) {
        Some(cs) => if cs.len() > 0 && cs[0].len() > 0 {
            match cs[0][0] {
                Some(t) => t,
                None => no_response_text(),
            }
        } else {
            no_response_text()
        },
        None => no_response_text(),
    }
}

/// Extracts the fix suggestion from a non-streaming response body.
pub fn fix_suggestion_from_body(body: &[u8]) -> (r: String)
    ensures
        r@ == suggestion_of(body@),
{
    match parse_candidate_parts(body) {
        Some(cands) => {
            proof {
                assert(candidate_parts(body@) == Some(cands.deep_view()));
            }
            if cands.len() > 0 {
                proof {
                    assert(cands.deep_view()[0] == cands@[0].deep_view());
                }
                let first = &cands[0];
                if first.len() > 0 {
                    proof {
                        assert(cands@[0].deep_view()[0] == cands@[0]@[0].deep_view());
                    }
                    match &first[0] {
                        Some(t) => t.clone(),
                        None => no_response(),
                    }
                } else {
                    no_response()
                }
            } else {
                no_response()
            }
        },
        None => no_response(),
    }
}

/// The streaming endpoint for a model and credential.
pub open spec fn stream_endpoint_text(model: Seq<char>, key: Seq<char>) -> Seq<char> {
    "https://generativelanguage.googleapis.com/v1beta/models/"@ + model
        + ":streamGenerateContent?key="@ + key
}

/// Composes the streaming endpoint.
pub fn stream_endpoint(model: &str, key: &str) -> (r: String)
    ensures
        r@ == stream_endpoint_text(model@, key@),
{
    let mut r = String::new();
    r.append("https://generativelanguage.googleapis.com/v1beta/models/");
    r.append(model);
    r.append(":streamGenerateContent?key=");
    r.append(key);
    r
}

/// The single-shot endpoint for a model and credential.
pub open spec fn single_endpoint_text(model: Seq<char>, key: Seq<char>) -> Seq<char> {
    "https://generativelanguage.googleapis.com/v1beta/models/"@ + model + ":generateContent?key="@
        + key
}

/// Composes the single-shot endpoint.
pub fn single_endpoint(model: &str, key: &str) -> (r: String)
    ensures
        r@ == single_endpoint_text(model@, key@),
{
    let mut r = String::new();
    r.append("https://generativelanguage.googleapis.com/v1beta/models/");
    r.append(model);
    r.append(":generateContent?key=");
    r.append(key);
    r
}

/// The text of a connection failure, naming the likely causes.
pub open spec fn connection_text(detail: Seq<char>) -> Seq<char> {
    "Failed to connect to Gemini: "@ + detail + ". Check your internet connection and API key."@
}

/// Composes the connection-failure error for this provider.
pub fn connection_error(detail: &str) -> (r: ErrorKind)
    ensures
        r matches ErrorKind::Connection { message } && message@ == connection_text(detail@),
{
    let mut m = String::new();
    m.append("Failed to connect to Gemini: ");
    m.append(detail);
    m.append(". Check your internet connection and API key.");
    ErrorKind::Connection { message: m }
}

/// The text of a non-success status, quoting status and body verbatim and
/// naming the credential to check.
pub open spec fn status_text(status: nat, body: Seq<char>) -> Seq<char> {
    "Gemini API error (status "@ + dec_seq(status) + "): "@ + body
        + ". Check your AETHER_GEMINI_API_KEY."@
}

/// Renders the non-success-status message for this provider.
pub fn status_error_message(status: u16, body: &str) -> (r: String)
    ensures
        r@ == status_text(status as nat, body@),
{
    let mut m = String::new();
    m.append("Gemini API error (status ");
    let d = dec_string(status);
    m.append(d.as_str());
    m.append("): ");
    m.append(body);
    m.append(". Check your AETHER_GEMINI_API_KEY.");
    m
}

/// The error reported when the credential variable is absent.
pub fn missing_key_error() -> (r: ErrorKind)
    ensures
        r matches ErrorKind::Configuration { variable } && variable@ == "AETHER_GEMINI_API_KEY"@,
{
    ErrorKind::Configuration { variable: "AETHER_GEMINI_API_KEY".to_owned() }
}

} // verus!
