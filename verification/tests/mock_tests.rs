//! Behaviour of the deterministic provider double: exact and fuzzy
//! lookup, custom and default responses, and the simulated stream.

use aether::client::CompletionRequest;
use aether::mock::MockAIProvider;

fn request_for(query: &str) -> CompletionRequest {
    CompletionRequest {
        system_prompt: "test".to_string(),
        user_query: query.to_string(),
        context_files: vec![],
        history: vec![],
    }
}

#[test]
fn test_mock_provider_exact_match() {
    let provider = MockAIProvider::new();
    assert_eq!(provider.get_response("list files"), "ls -la");
}

#[test]
fn test_mock_provider_fuzzy_match() {
    let provider = MockAIProvider::new();
    let response = provider.get_response("how do I list files?");
    assert_eq!(response, "ls -la");
}

#[test]
fn test_mock_provider_custom_response() {
    let provider = MockAIProvider::new()
        .with_response("test query".to_string(), "test response".to_string());
    assert_eq!(provider.get_response("test query"), "test response");
}

#[test]
fn test_mock_provider_streaming() {
    let provider = MockAIProvider::new();
    let req = request_for("list files");

    let mut stream = provider.stream_completion(&req);
    let mut collected = String::new();
    while let Some(chunk) = stream.next() {
        collected.push_str(&chunk);
    }

    assert_eq!(collected, "ls -la");
}

#[test]
fn test_mock_provider_case_insensitive_lookup() {
    let provider = MockAIProvider::new();
    assert_eq!(provider.get_response("LIST FILES"), "ls -la");
    assert_eq!(provider.get_response("List Files"), "ls -la");
}

#[test]
fn test_mock_provider_git_reset_lookup() {
    let provider = MockAIProvider::new();
    let response = provider.get_response("undo last git commit");
    assert!(response.contains("git"));
    assert!(response.contains("reset"));
}

#[test]
fn test_mock_provider_unknown_query_yields_default() {
    let provider = MockAIProvider::new();
    assert_eq!(
        provider.get_response("translate this sonnet"),
        "echo 'Command not found in mock responses'"
    );
}

#[test]
fn test_mock_provider_with_default() {
    let provider = MockAIProvider::new().with_default("echo fallback".to_string());
    assert_eq!(provider.get_response("translate this sonnet"), "echo fallback");
}

#[test]
fn test_mock_provider_replaces_existing_response() {
    let provider = MockAIProvider::new()
        .with_response("list files".to_string(), "ls".to_string());
    assert_eq!(provider.get_response("list files"), "ls");
}

#[test]
fn test_mock_stream_chunks_are_small() {
    let provider = MockAIProvider::new();
    let req = request_for("undo last git commit");
    let mut stream = provider.stream_completion(&req);
    let mut collected = String::new();
    while let Some(chunk) = stream.next() {
        assert!(!chunk.is_empty());
        assert!(chunk.chars().count() <= 5);
        collected.push_str(&chunk);
    }
    assert_eq!(collected, "git reset --soft HEAD~1");
}

#[test]
fn test_mock_stream_abandoned_mid_way() {
    let provider = MockAIProvider::new();
    let req = request_for("undo last git commit");
    let mut stream = provider.stream_completion(&req);
    let first = stream.next();
    let second = stream.next();
    assert!(first.is_some());
    assert!(second.is_some());
    drop(stream);
}

#[test]
fn test_mock_fix_suggestion_and_model_name() {
    let provider = MockAIProvider::new();
    assert_eq!(
        provider.get_fix_suggestion("something broke"),
        "Mock fix suggestion: Check your configuration file"
    );
    assert_eq!(provider.model_name(), "mock-provider");
}
