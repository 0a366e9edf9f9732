//! Request composition, fix-suggestion extraction and error text for each
//! provider adapter core.

use aether::client::{CompletionRequest, ErrorKind};
use aether::{anthropic, gemini, ollama, openai};

fn full_request() -> CompletionRequest {
    CompletionRequest {
        system_prompt: "You are a code assistant.".to_string(),
        user_query: "What does the add function do?".to_string(),
        context_files: vec![(
            "math.rs".to_string(),
            "fn add(a: i32, b: i32) -> i32 { a + b }".to_string(),
        )],
        history: vec!["cargo build".to_string(), "cargo test".to_string()],
    }
}

#[test]
fn test_openai_message_layout() {
    let req = full_request();
    let messages = openai::build_messages(&req);
    assert_eq!(messages.len(), 4);
    assert_eq!(messages[0].role, "system");
    assert_eq!(messages[0].content, "You are a code assistant.");
    assert_eq!(messages[1].role, "system");
    assert_eq!(
        messages[1].content,
        "Context:\nFile: math.rs\n```\nfn add(a: i32, b: i32) -> i32 { a + b }\n```"
    );
    assert_eq!(messages[2].role, "system");
    assert_eq!(
        messages[2].content,
        "Recent shell history:\ncargo build\ncargo test"
    );
    assert_eq!(messages[3].role, "user");
    assert_eq!(messages[3].content, "What does the add function do?");
}

#[test]
fn test_openai_message_layout_without_context() {
    let req = CompletionRequest {
        system_prompt: "sys".to_string(),
        user_query: "q".to_string(),
        context_files: vec![],
        history: vec![],
    };
    let messages = openai::build_messages(&req);
    assert_eq!(messages.len(), 2);
    assert_eq!(messages[0].role, "system");
    assert_eq!(messages[1].role, "user");
}

#[test]
fn test_ollama_message_layout_matches_openai_shape() {
    let req = full_request();
    let messages = ollama::build_messages(&req);
    assert_eq!(messages.len(), 4);
    assert_eq!(messages[3].role, "user");
    assert_eq!(messages[3].content, "What does the add function do?");
}

#[test]
fn test_anthropic_system_text_folds_context_and_history() {
    let req = full_request();
    let (messages, system) = anthropic::build_messages_and_system(&req);
    assert_eq!(messages.len(), 1);
    assert_eq!(messages[0].role, "user");
    assert_eq!(messages[0].content, "What does the add function do?");
    assert_eq!(
        system,
        "You are a code assistant.\n\n\
         Context:\nFile: math.rs\n```\nfn add(a: i32, b: i32) -> i32 { a + b }\n```\n\n\
         Recent shell history:\ncargo build\ncargo test"
    );
}

#[test]
fn test_gemini_request_puts_history_then_context_before_query() {
    let req = full_request();
    let (user_text, system_text) = gemini::build_request(&req);
    assert_eq!(system_text, "You are a code assistant.");
    assert_eq!(
        user_text,
        "Recent shell history:\ncargo build\ncargo test\n\n\
         Context:\nFile: math.rs\n```\nfn add(a: i32, b: i32) -> i32 { a + b }\n```\n\n\
         What does the add function do?"
    );
}

#[test]
fn test_fix_messages_share_the_sentinel_prompt() {
    let (messages, system) = anthropic::build_fix_messages("make: *** [all] Error 2");
    assert_eq!(messages.len(), 1);
    assert_eq!(
        messages[0].content,
        "This command failed:\nmake: *** [all] Error 2\n\nSuggest a fix."
    );
    assert!(system.starts_with("You are AETHER in Sentinel mode."));

    let messages = openai::build_fix_messages("boom");
    assert_eq!(messages.len(), 2);
    assert_eq!(messages[0].role, "system");
    assert_eq!(messages[1].content, "This command failed:\nboom\n\nSuggest a fix.");

    let messages = ollama::build_fix_messages("boom");
    assert_eq!(messages.len(), 2);

    let (user_text, system_text) = gemini::build_fix_request("boom");
    assert_eq!(user_text, "This command failed:\nboom\n\nSuggest a fix.");
    assert!(system_text.contains("Sentinel mode"));
}

#[test]
fn test_anthropic_fix_suggestion_takes_first_content_text() {
    let body = br#"{"content":[{"type":"text","text":"Run cargo clean."},{"type":"text","text":"second"}]}"#;
    assert_eq!(anthropic::fix_suggestion_from_body(body), "Run cargo clean.");
}

#[test]
fn test_anthropic_fix_suggestion_fallback() {
    assert_eq!(
        anthropic::fix_suggestion_from_body(br#"{"content":[]}"#),
        "No response from model"
    );
    assert_eq!(
        anthropic::fix_suggestion_from_body(b"not json"),
        "No response from model"
    );
}

#[test]
fn test_openai_fix_suggestion_takes_first_choice() {
    let body = br#"{"choices":[{"message":{"role":"assistant","content":"Use sudo."}}]}"#;
    assert_eq!(openai::fix_suggestion_from_body(body), "Use sudo.");
    assert_eq!(
        openai::fix_suggestion_from_body(br#"{"choices":[]}"#),
        "No response from model"
    );
}

#[test]
fn test_ollama_fix_suggestion_reads_message_content() {
    let body = br#"{"message":{"role":"assistant","content":"Check the path."},"done":true}"#;
    assert_eq!(ollama::fix_suggestion_from_body(body), "Check the path.");
    assert_eq!(
        ollama::fix_suggestion_from_body(br#"{"done":true}"#),
        "No response from model"
    );
}

#[test]
fn test_gemini_fix_suggestion_reads_first_part() {
    let body = br#"{"candidates":[{"content":{"parts":[{"text":"Pin the version."}]}}]}"#;
    assert_eq!(gemini::fix_suggestion_from_body(body), "Pin the version.");
    assert_eq!(
        gemini::fix_suggestion_from_body(br#"{"candidates":[]}"#),
        "No response from model"
    );
}

#[test]
fn test_status_error_messages_quote_status_and_body() {
    assert_eq!(
        openai::status_error_message(401, "bad key"),
        "OpenAI API error (status 401): bad key. Check your AETHER_OPENAI_API_KEY."
    );
    assert_eq!(
        anthropic::status_error_message(529, "overloaded"),
        "Anthropic API error (status 529): overloaded. Check your AETHER_ANTHROPIC_API_KEY."
    );
    assert_eq!(
        gemini::status_error_message(400, "bad request"),
        "Gemini API error (status 400): bad request. Check your AETHER_GEMINI_API_KEY."
    );
    assert_eq!(
        ollama::status_error_message(500, "oops"),
        "Ollama API error (status 500): oops"
    );
}

#[test]
fn test_connection_errors_carry_remediation_hints() {
    let e = ollama::connection_error("connection refused");
    match e {
        ErrorKind::Connection { message } => {
            assert_eq!(
                message,
                "Failed to connect to Ollama: connection refused. Is Ollama running?"
            );
        }
        _ => panic!("expected a connection error"),
    }

    let e = openai::connection_error("dns failure");
    assert!(e.message().contains("Check your internet connection and API key."));
}

#[test]
fn test_missing_key_errors_name_the_variable() {
    match openai::missing_key_error() {
        ErrorKind::Configuration { variable } => {
            assert_eq!(variable, "AETHER_OPENAI_API_KEY");
        }
        _ => panic!("expected a configuration error"),
    }
    assert_eq!(
        anthropic::missing_key_error().message(),
        "AETHER_ANTHROPIC_API_KEY not set"
    );
    assert_eq!(
        gemini::missing_key_error().message(),
        "AETHER_GEMINI_API_KEY not set"
    );
}

#[test]
fn test_endpoints() {
    assert_eq!(
        anthropic::messages_endpoint(),
        "https://api.anthropic.com/v1/messages"
    );
    assert_eq!(
        openai::chat_endpoint(),
        "https://api.openai.com/v1/chat/completions"
    );
    assert_eq!(
        ollama::chat_endpoint("http://localhost:11434"),
        "http://localhost:11434/api/chat"
    );
    assert_eq!(
        gemini::stream_endpoint("gemini-1.5-pro", "k123"),
        "https://generativelanguage.googleapis.com/v1beta/models/gemini-1.5-pro:streamGenerateContent?key=k123"
    );
    assert_eq!(
        gemini::single_endpoint("gemini-1.5-pro", "k123"),
        "https://generativelanguage.googleapis.com/v1beta/models/gemini-1.5-pro:generateContent?key=k123"
    );
}

#[test]
fn test_error_kind_messages() {
    let e = ErrorKind::Provider { status: 404, body: "missing".to_string() };
    assert_eq!(e.message(), "provider error (status 404): missing");
    assert_eq!(ErrorKind::Decode.message(), "malformed frame in the response stream");
}
