//! The headless path end to end over the deterministic double, fragment
//! aggregation, prompt generation, history extraction and configuration
//! defaults.

use aether::brain::{aggregate_fragments, build_query_request};
use aether::config::Config;
use aether::mock::MockAIProvider;
use aether::prompts::{format_user_query, generate_system_prompt};
use aether::shell::{recent_lines, ShellContext};

fn process_query_with_mock(query: &str) -> String {
    let provider = MockAIProvider::new();
    let req = build_query_request(query, vec![], vec![]);
    let mut stream = provider.stream_completion(&req);
    let mut frags: Vec<String> = Vec::new();
    while let Some(chunk) = stream.next() {
        frags.push(chunk);
    }
    aggregate_fragments(&frags)
}

#[test]
fn test_brain_headless() {
    let result = process_query_with_mock("list files");
    assert_eq!(result, "ls -la");
}

#[test]
fn test_brain_git_reset() {
    let result = process_query_with_mock("undo last git commit");
    assert!(result.contains("git"));
    assert!(result.contains("reset"));
}

#[test]
fn test_aggregate_trims_surrounding_whitespace() {
    let frags = vec!["  ls".to_string(), " -la".to_string(), "  \n".to_string()];
    assert_eq!(aggregate_fragments(&frags), "ls -la");
    let empty: Vec<String> = Vec::new();
    assert_eq!(aggregate_fragments(&empty), "");
}

#[test]
fn test_build_query_request_uses_lens_prompt() {
    let req = build_query_request("list files", vec![], vec![]);
    assert_eq!(req.user_query, "list files");
    assert!(req.system_prompt.starts_with("You are AETHER, an AI assistant"));
    assert!(req.context_files.is_empty());
    assert!(req.history.is_empty());
}

#[test]
fn test_generate_system_prompt_modes() {
    assert!(generate_system_prompt("lens", &[]).contains("shell commands"));
    assert!(generate_system_prompt("pipe", &[]).contains("pipe mode"));
    assert!(generate_system_prompt("sentinel", &[]).contains("Sentinel mode"));
    assert!(generate_system_prompt("unknown", &[]).contains("shell commands"));
}

#[test]
fn test_generate_system_prompt_appends_recent_commands() {
    let context = vec!["git status".to_string(), "ls".to_string()];
    let prompt = generate_system_prompt("lens", &context);
    assert!(prompt.contains("\n\nRecent commands:\n"));
    assert!(prompt.ends_with("  - git status\n  - ls\n"));
}

#[test]
fn test_format_user_query_with_files() {
    let files = vec![("a.txt".to_string(), "alpha".to_string())];
    let formatted = format_user_query("what is this?", &files);
    assert_eq!(
        formatted,
        "what is this?\n\nRelevant files:\n\n--- a.txt ---\nalpha\n"
    );
    assert_eq!(format_user_query("plain", &[]), "plain");
}

#[test]
fn test_recent_lines_most_recent_first() {
    let content = "first\nsecond\nthird\n";
    assert_eq!(recent_lines(content, 2), vec!["third".to_string(), "second".to_string()]);
    assert_eq!(
        recent_lines(content, 10),
        vec!["third".to_string(), "second".to_string(), "first".to_string()]
    );
    assert!(recent_lines("", 5).is_empty());
}

#[test]
fn test_recent_lines_handles_crlf_and_missing_final_newline() {
    let content = "one\r\ntwo\r\nthree";
    assert_eq!(
        recent_lines(content, 3),
        vec!["three".to_string(), "two".to_string(), "one".to_string()]
    );
}

#[test]
fn test_shell_context_paths() {
    assert_eq!(ShellContext::get_context_path(), "/tmp/aether/context.json");
    assert_eq!(ShellContext::get_last_session_path(), "/tmp/aether/last_session");
}

#[test]
fn test_config_default() {
    let config = Config::default();
    assert_eq!(config.ai.default_provider, "ollama");
    assert!(config.ai.ollama.enabled);
    assert_eq!(config.ai.ollama.base_url, "http://localhost:11434");
    assert_eq!(config.ai.ollama.model, "llama3");
    assert!(!config.ai.openai.enabled);
    assert_eq!(config.ui.modal_width_percent, 80);
    assert_eq!(config.ui.modal_height_percent, 70);
    assert!(config.safety.detect_destructive_commands);
    assert!(config.safety.confirm_destructive);
    assert!(!config.safety.default_dry_run);
}

#[test]
fn test_file_scanner_modified_files_is_empty() {
    let files = aether::scanner::FileScanner::get_modified_files(".").unwrap();
    assert!(files.is_empty());
}
