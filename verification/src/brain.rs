//! The headless side of the completion layer: building a request for a
//! plain query, folding a finished fragment sequence into the final answer,
//! and the dry-run analysis of a candidate command.  Driving a live
//! provider to completion is the caller's loop; the decisions it folds over
//! are all here.

use vstd::prelude::*;

use crate::client::CompletionRequest;
use crate::executor::{destructive_text, is_destructive_cmd, safe_text, CommandExecutor};
use crate::prompts::{generate_system_prompt, system_prompt_text};
use crate::text::{concat_all, lemma_concat_all_push, trim_exec, trimmed};

verus! {

/// Builds the completion request for one query: the overlay system prompt,
/// the query itself, and whatever context the caller gathered.
pub fn build_query_request(
    query: &str,
    context_files: Vec<(String, String)>,
    history: Vec<String>,
) -> (r: CompletionRequest)
    ensures
        r.system_prompt@ == system_prompt_text("lens"@, Seq::<Seq<char>>::empty()),
        r.user_query@ == query@,
        r.context_files == context_files,
        r.history == history,
{
    let empty: Vec<String> = Vec::new();
    let no_context = empty.as_slice();
    proof {
        assert(no_context.deep_view() =~= Seq::<Seq<char>>::empty());
    }
    let system_prompt = generate_system_prompt("lens", no_context);
    CompletionRequest { system_prompt, user_query: query.to_owned(), context_files, history }
}

/// Folds a delivered fragment sequence into the final answer: the
/// fragments concatenated in arrival order, with surrounding whitespace
/// trimmed.
pub fn aggregate_fragments(frags: &Vec<String>) -> (r: String)
    ensures
        r@ == trimmed(concat_all(frags.deep_view())),
{
    let mut whole = String::new();
    proof {
        assert(frags.deep_view().take(0) =~= Seq::<Seq<char>>::empty());
        assert(whole@ =~= concat_all(frags.deep_view().take(0)));
    }
    let mut i: usize = 0;
    while i < frags.len()
        invariant
            i <= frags@.len(),
            frags.deep_view().len() == frags@.len(),
            whole@ == concat_all(frags.deep_view().take(i as int)),
        decreases frags@.len() - i,
    {
        whole.append(frags[i].as_str());
        proof {
            let dv = frags.deep_view();
            assert(dv[i as int] == frags@[i as int]@);
            assert(dv.take(i + 1) =~= dv.take(i as int).push(dv[i as int]));
            lemma_concat_all_push(dv.take(i as int), dv[i as int]);
        }
        i = i + 1;
    }
    proof {
        assert(frags.deep_view().take(frags@.len() as int) =~= frags.deep_view());
    }
    trim_exec(whole.as_str())
}

/// The dry-run verdict on one candidate command.
#[derive(Debug)]
pub struct CommandAnalysis {
    pub command: String,
    pub is_destructive: bool,
    pub description: String,
}

/// Analyzes a candidate command without executing it.
pub fn analyze_command(command: &str) -> (r: CommandAnalysis)
    ensures
        r.command@ == command@,
        r.is_destructive == is_destructive_cmd(command@),
        is_destructive_cmd(command@) ==> r.description@ == destructive_text(command@),
        !is_destructive_cmd(command@) ==> r.description@ == safe_text(command@),
{
    CommandAnalysis {
        command: command.to_owned(),
        is_destructive: CommandExecutor::is_destructive(command),
        description: CommandExecutor::analyze_command(command),
    }
}

} // verus!
