//! Request-composition helpers shared by the provider adapters: the
//! context-file block, the shell-history block, and the fixed texts of the
//! non-streaming fix-suggestion path.  How these blocks are placed into a
//! provider's message schema is per-provider policy and lives with each
//! adapter.

use vstd::prelude::*;

use crate::text::{join_exec, joined};

verus! {

/// One context file rendered as a fenced block.
pub open spec fn file_entry(name: Seq<char>, content: Seq<char>) -> Seq<char> {
    "File: "@ + name + "\n```\n"@ + content + "\n```"@
}

/// All context files rendered, in relevance order.
pub open spec fn context_entries(files: Seq<(Seq<char>, Seq<char>)>) -> Seq<Seq<char>> {
    files.map(|i: int, f: (Seq<char>, Seq<char>)| file_entry(f.0, f.1))
}

/// The context block handed to a provider.
pub open spec fn context_block(files: Seq<(Seq<char>, Seq<char>)>) -> Seq<char> {
    "Context:\n"@ + joined(context_entries(files), "\n\n"@)
}

/// The shell-history block handed to a provider, most recent first.
pub open spec fn history_block(hist: Seq<Seq<char>>) -> Seq<char> {
    "Recent shell history:\n"@ + joined(hist, "\n"@)
}

/// The user text of the non-streaming fix-suggestion request.
pub open spec fn fix_user_text(error_log: Seq<char>) -> Seq<char> {
    "This command failed:\n"@ + error_log + "\n\nSuggest a fix."@
}

/// The fixed system text of the fix-suggestion request.
pub open spec fn sentinel_system_text() -> Seq<char> {
    "You are AETHER in Sentinel mode. Analyze error messages and suggest fixes. Be concise and actionable."@
}

/// The fallback text returned when a provider's response held no candidate.
pub open spec fn no_response_text() -> Seq<char> {
    "No response from model"@
}

/// Renders one context file as its fenced block.
pub fn build_file_entry(name: &str, content: &str) -> (r: String)
    ensures
        r@ == file_entry(name@, content@),
{
    let mut r = String::new();
    r.append("File: ");
    r.append(name);
    r.append("\n```\n");
    r.append(content);
    r.append("\n```");
    r
}

/// Renders the context block of a request.
pub fn build_context_block(files: &Vec<(String, String)>) -> (r: String)
    ensures
        r@ == context_block(files.deep_view()),
{
    let mut entries: Vec<String> = Vec::new();
    let mut i: usize = 0;
    while i < files.len()
        invariant
            i <= files.len(),
            entries.deep_view() =~= context_entries(files.deep_view()).take(i as int),
        decreases files.len() - i,
    {
        proof {
            assert(context_entries(files.deep_view()).len() == files@.len());
            assert(entries.deep_view().len() == i);
            assert(entries@.len() == i);
        }
        let e = build_file_entry(files[i].0.as_str(), files[i].1.as_str());
        let ghost prevv = entries@;
        entries.push(e);
        proof {
            let ce = context_entries(files.deep_view());
            assert(files.deep_view()[i as int] == files@[i as int].deep_view());
            assert(files@[i as int].deep_view() == (files@[i as int].0@, files@[i as int].1@));
            assert(ce[i as int] == file_entry(
                files.deep_view()[i as int].0,
                files.deep_view()[i as int].1,
            ));
            assert(prevv.len() == i);
            assert(entries@ == prevv.push(e));
            assert forall|j: int| 0 <= j < entries@.len() implies entries.deep_view()[j]
                == ce.take(i + 1)[j] by {
                assert(entries.deep_view()[j] == entries@[j]@);
                if j < i {
                    assert(entries@[j] == prevv[j]);
                    assert(prevv[j]@ == ce.take(i as int)[j]);
                } else {
                    assert(entries@[j] == e);
                }
            }
            assert(entries.deep_view() =~= ce.take(i + 1));
        }
        i = i + 1;
    }
    proof {
        assert(context_entries(files.deep_view()).take(files.len() as int) =~= context_entries(
            files.deep_view(),
        ));
    }
    let body = join_exec(&entries, "\n\n");
    let mut r = String::new();
    r.append("Context:\n");
    r.append(body.as_str());
    r
}

/// Renders the shell-history block of a request.
pub fn build_history_block(history: &Vec<String>) -> (r: String)
    ensures
        r@ == history_block(history.deep_view()),
{
    let body = join_exec(history, "\n");
    let mut r = String::new();
    r.append("Recent shell history:\n");
    r.append(body.as_str());
    r
}

/// Renders the user text of a fix-suggestion request.
pub fn build_fix_user_text(error_log: &str) -> (r: String)
    ensures
        r@ == fix_user_text(error_log@),
{
    let mut r = String::new();
    r.append("This command failed:\n");
    r.append(error_log);
    r.append("\n\nSuggest a fix.");
    r
}

/// The fixed system text of a fix-suggestion request, as an owned string.
pub fn sentinel_system_prompt() -> (r: String)
    ensures
        r@ == sentinel_system_text(),
{
    "You are AETHER in Sentinel mode. Analyze error messages and suggest fixes. Be concise and actionable.".to_owned()
}

/// The fallback candidate text, as an owned string.
pub fn no_response() -> (r: String)
    ensures
        r@ == no_response_text(),
{
    "No response from model".to_owned()
}

} // verus!
