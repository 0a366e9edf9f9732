//! The fixed system prompts of the three interaction modes, and the
//! builders that fold recent commands and context files into the texts
//! handed to a provider.

use vstd::prelude::*;

use crate::text::{concat_all, lemma_concat_all_push, str_eq_exec};

verus! {

/// The system prompt of the interactive overlay mode.
pub open spec fn lens_prompt_text() -> Seq<char> {
    "You are AETHER, an AI assistant for command-line interfaces. Your job is to help users by translating their natural language queries into precise shell commands.\n\nRules:\n1. Respond ONLY with the shell command, no explanations unless explicitly asked\n2. Use safe, standard Unix commands\n3. Prefer readable flags over cryptic shortcuts when reasonable\n4. If the query is ambiguous, make reasonable assumptions\n5. If multiple commands are needed, chain them with && or |\n\nContext:\n- Current shell: bash/zsh (assume POSIX compatibility)\n- Operating system: Linux/Unix\n"@
}

/// The system prompt of pipe mode.
pub open spec fn pipe_prompt_text() -> Seq<char> {
    "You are AETHER in pipe mode. You receive piped data and process it according to user instructions.\n\nRules:\n1. Analyze the input data format (JSON, CSV, logs, etc.)\n2. Follow the user's instructions precisely\n3. Output clean, parseable results\n4. If asked for a chart, describe it in ASCII art\n5. Preserve data integrity\n"@
}

/// The system prompt of the error-diagnosis mode.
pub open spec fn sentinel_prompt_text() -> Seq<char> {
    "You are AETHER in Sentinel mode. You analyze error messages and suggest fixes.\n\nRules:\n1. Read the error message carefully\n2. Identify the root cause\n3. Suggest a specific, actionable fix\n4. If code changes are needed, provide a unified diff\n5. Explain the fix briefly\n"@
}

/// The base prompt selected by mode name; unknown modes fall back to the
/// overlay prompt.
pub open spec fn base_prompt(mode: Seq<char>) -> Seq<char> {
    if mode == "pipe"@ {
        pipe_prompt_text()
    } else if mode == "sentinel"@ {
        sentinel_prompt_text()
    } else {
        lens_prompt_text()
    }
}

/// One recent command rendered as a bullet line.
pub open spec fn bullet(cmd: Seq<char>) -> Seq<char> {
    "  - "@ + cmd + "\n"@
}

/// All recent commands rendered as bullet lines.
pub open spec fn context_lines(ctx: Seq<Seq<char>>) -> Seq<char> {
    concat_all(ctx.map(|i: int, c: Seq<char>| bullet(c)))
}

/// The complete system prompt: the mode's base prompt, then recent
/// commands if any were given.
pub open spec fn system_prompt_text(mode: Seq<char>, ctx: Seq<Seq<char>>) -> Seq<char> {
    if ctx.len() == 0 {
        base_prompt(mode)
    } else {
        base_prompt(mode) + "\n\nRecent commands:\n"@ + context_lines(ctx)
    }
}

fn base_prompt_exec(mode: &str) -> (r: String)
    ensures
        r@ == base_prompt(mode@),
{
    if str_eq_exec(mode, "pipe") {
        "You are AETHER in pipe mode. You receive piped data and process it according to user instructions.\n\nRules:\n1. Analyze the input data format (JSON, CSV, logs, etc.)\n2. Follow the user's instructions precisely\n3. Output clean, parseable results\n4. If asked for a chart, describe it in ASCII art\n5. Preserve data integrity\n".to_owned()
    } else if str_eq_exec(mode, "sentinel") {
        "You are AETHER in Sentinel mode. You analyze error messages and suggest fixes.\n\nRules:\n1. Read the error message carefully\n2. Identify the root cause\n3. Suggest a specific, actionable fix\n4. If code changes are needed, provide a unified diff\n5. Explain the fix briefly\n".to_owned()
    } else {
        "You are AETHER, an AI assistant for command-line interfaces. Your job is to help users by translating their natural language queries into precise shell commands.\n\nRules:\n1. Respond ONLY with the shell command, no explanations unless explicitly asked\n2. Use safe, standard Unix commands\n3. Prefer readable flags over cryptic shortcuts when reasonable\n4. If the query is ambiguous, make reasonable assumptions\n5. If multiple commands are needed, chain them with && or |\n\nContext:\n- Current shell: bash/zsh (assume POSIX compatibility)\n- Operating system: Linux/Unix\n".to_owned()
    }
}

/// Builds the complete system prompt for a mode and recent commands.
pub fn generate_system_prompt(mode: &str, context: &[String]) -> (r: String)
    ensures
        r@ == system_prompt_text(mode@, context.deep_view()),
{
    let mut prompt = base_prompt_exec(mode);
    if context.len() > 0 {
        prompt.append("\n\nRecent commands:\n");
        let ghost ctx = context.deep_view();
        let ghost bullets = ctx.map(|i: int, c: Seq<char>| bullet(c));
        let ghost base = prompt@;
        proof {
            assert(ctx.len() == context@.len());
            assert(bullets.take(0) =~= Seq::<Seq<char>>::empty());
            assert(base + concat_all(bullets.take(0)) =~= base);
        }
        let mut i: usize = 0;
        while i < context.len()
            invariant
                i <= context@.len(),
                ctx == context.deep_view(),
                bullets == ctx.map(|i: int, c: Seq<char>| bullet(c)),
                ctx.len() == context@.len(),
                prompt@ == base + concat_all(bullets.take(i as int)),
            decreases context@.len() - i,
        {
            prompt.append("  - ");
            prompt.append(context[i].as_str());
            prompt.append("\n");
            proof {
                assert(ctx[i as int] == context@[i as int]@);
                assert(bullets[i as int] == bullet(ctx[i as int]));
                assert(bullets.take(i + 1) =~= bullets.take(i as int).push(bullets[i as int]));
                lemma_concat_all_push(bullets.take(i as int), bullets[i as int]);
                assert(prompt@ =~= base + concat_all(bullets.take(i + 1)));
            }
            i = i + 1;
        }
        proof {
            assert(bullets.take(context@.len() as int) =~= bullets);
        }
    }
    prompt
}

/// One context file rendered for the user query.
pub open spec fn file_section(name: Seq<char>, content: Seq<char>) -> Seq<char> {
    "\n--- "@ + name + " ---\n"@ + content + "\n"@
}

/// The user query with its relevant files appended.
pub open spec fn user_query_text(query: Seq<char>, files: Seq<(Seq<char>, Seq<char>)>) -> Seq<
    char,
> {
    if files.len() == 0 {
        query
    } else {
        query + "\n\nRelevant files:\n"@ + concat_all(
            files.map(|i: int, f: (Seq<char>, Seq<char>)| file_section(f.0, f.1)),
        )
    }
}

/// Renders the user query together with any relevant files.
pub fn format_user_query(query: &str, context_files: &[(String, String)]) -> (r: String)
    ensures
        r@ == user_query_text(query@, context_files.deep_view()),
{
    let mut formatted = query.to_owned();
    if context_files.len() > 0 {
        formatted.append("\n\nRelevant files:\n");
        let ghost files = context_files.deep_view();
        let ghost sections = files.map(|i: int, f: (Seq<char>, Seq<char>)| file_section(f.0, f.1));
        let ghost base = formatted@;
        proof {
            assert(files.len() == context_files@.len());
            assert(sections.take(0) =~= Seq::<Seq<char>>::empty());
            assert(base + concat_all(sections.take(0)) =~= base);
        }
        let mut i: usize = 0;
        while i < context_files.len()
            invariant
                i <= context_files@.len(),
                files == context_files.deep_view(),
                sections == files.map(|i: int, f: (Seq<char>, Seq<char>)| file_section(f.0, f.1)),
                files.len() == context_files@.len(),
                formatted@ == base + concat_all(sections.take(i as int)),
            decreases context_files@.len() - i,
        {
            formatted.append("\n--- ");
            formatted.append(context_files[i].0.as_str());
            formatted.append(" ---\n");
            formatted.append(context_files[i].1.as_str());
            formatted.append("\n");
            proof {
                assert(files[i as int] == context_files@[i as int].deep_view());
                assert(context_files@[i as int].deep_view() == (
                    context_files@[i as int].0@,
                    context_files@[i as int].1@,
                ));
                assert(sections[i as int] == file_section(files[i as int].0, files[i as int].1));
                assert(sections.take(i + 1) =~= sections.take(i as int).push(sections[i as int]));
                lemma_concat_all_push(sections.take(i as int), sections[i as int]);
                assert(formatted@ =~= base + concat_all(sections.take(i + 1)));
            }
            i = i + 1;
        }
        proof {
            assert(sections.take(context_files@.len() as int) =~= sections);
        }
    }
    formatted
}

} // verus!
