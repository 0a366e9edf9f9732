//! Eval-driven checks: semantic expectations on the commands the
//! deterministic double produces, matched by pattern and keyword.

use aether::client::CompletionRequest;
use aether::mock::MockAIProvider;
use regex::Regex;

#[derive(Debug, Clone)]
struct EvalCase {
    description: String,
    user_query: String,
    context_files: Vec<(String, String)>,
    expected_command_pattern: String,
    required_keywords: Option<Vec<String>>,
    forbidden_keywords: Option<Vec<String>>,
}

#[derive(Debug, PartialEq)]
enum EvalResult {
    Pass,
    Fail(Vec<String>),
}

impl EvalCase {
    fn evaluate(&self, actual_command: &str) -> EvalResult {
        let mut errors = Vec::new();

        match Regex::new(&self.expected_command_pattern) {
            Ok(re) => {
                if !re.is_match(actual_command) {
                    errors.push(format!(
                        "Command '{}' does not match pattern '{}'",
                        actual_command, self.expected_command_pattern
                    ));
                }
            }
            Err(e) => {
                errors.push(format!("Invalid regex pattern: {}", e));
            }
        }

        if let Some(required) = &self.required_keywords {
            for keyword in required {
                if !actual_command.contains(keyword) {
                    errors.push(format!(
                        "Missing required keyword '{}' in command '{}'",
                        keyword, actual_command
                    ));
                }
            }
        }

        if let Some(forbidden) = &self.forbidden_keywords {
            for keyword in forbidden {
                if actual_command.contains(keyword) {
                    errors.push(format!(
                        "Found forbidden keyword '{}' in command '{}'",
                        keyword, actual_command
                    ));
                }
            }
        }

        if errors.is_empty() {
            EvalResult::Pass
        } else {
            EvalResult::Fail(errors)
        }
    }
}

fn default_eval_cases() -> Vec<EvalCase> {
    vec![
        EvalCase {
            description: "Undo last git commit (soft reset)".to_string(),
            user_query: "undo last git commit".to_string(),
            context_files: vec![],
            expected_command_pattern: "git reset.*(--soft|HEAD)".to_string(),
            required_keywords: Some(vec!["git".to_string(), "reset".to_string()]),
            forbidden_keywords: Some(vec!["rm".to_string(), "delete".to_string()]),
        },
        EvalCase {
            description: "List files in current directory".to_string(),
            user_query: "list files".to_string(),
            context_files: vec![],
            expected_command_pattern: "ls.*".to_string(),
            required_keywords: Some(vec!["ls".to_string()]),
            forbidden_keywords: None,
        },
        EvalCase {
            description: "Find Python files".to_string(),
            user_query: "find python files".to_string(),
            context_files: vec![],
            expected_command_pattern: "find.*\\.py".to_string(),
            required_keywords: Some(vec!["find".to_string(), ".py".to_string()]),
            forbidden_keywords: None,
        },
        EvalCase {
            description: "Git status command".to_string(),
            user_query: "show git status".to_string(),
            context_files: vec![],
            expected_command_pattern: "git status".to_string(),
            required_keywords: Some(vec!["git".to_string(), "status".to_string()]),
            forbidden_keywords: None,
        },
        EvalCase {
            description: "Complex tar operation".to_string(),
            user_query: "find all python files modified yesterday and tar them".to_string(),
            context_files: vec![],
            expected_command_pattern: "find.*\\.py.*tar".to_string(),
            required_keywords: Some(vec![
                "find".to_string(),
                ".py".to_string(),
                "tar".to_string(),
            ]),
            forbidden_keywords: None,
        },
    ]
}

fn stream_answer(provider: &MockAIProvider, case: &EvalCase) -> String {
    let req = CompletionRequest {
        system_prompt: "You are a shell command generator".to_string(),
        user_query: case.user_query.clone(),
        context_files: case.context_files.clone(),
        history: vec![],
    };
    let mut stream = provider.stream_completion(&req);
    let mut actual_command = String::new();
    while let Some(chunk) = stream.next() {
        actual_command.push_str(&chunk);
    }
    actual_command
}

#[test]
fn test_eval_case_pass() {
    let case = EvalCase {
        description: "Test git reset".to_string(),
        user_query: "undo commit".to_string(),
        context_files: vec![],
        expected_command_pattern: "git reset.*HEAD".to_string(),
        required_keywords: Some(vec!["git".to_string()]),
        forbidden_keywords: Some(vec!["rm".to_string()]),
    };

    let result = case.evaluate("git reset --soft HEAD~1");
    assert_eq!(result, EvalResult::Pass);
}

#[test]
fn test_eval_case_fail_pattern() {
    let case = EvalCase {
        description: "Test git reset".to_string(),
        user_query: "undo commit".to_string(),
        context_files: vec![],
        expected_command_pattern: "git reset.*HEAD".to_string(),
        required_keywords: None,
        forbidden_keywords: None,
    };

    let result = case.evaluate("git status");
    match result {
        EvalResult::Fail(_) => assert!(true),
        EvalResult::Pass => panic!("Should have failed"),
    }
}

#[test]
fn test_eval_case_fail_forbidden() {
    let case = EvalCase {
        description: "Test safe command".to_string(),
        user_query: "list files".to_string(),
        context_files: vec![],
        expected_command_pattern: "ls.*".to_string(),
        required_keywords: None,
        forbidden_keywords: Some(vec!["rm".to_string()]),
    };

    let result = case.evaluate("ls -la && rm -rf /");
    match result {
        EvalResult::Fail(_) => assert!(true),
        EvalResult::Pass => panic!("Should have failed due to forbidden keyword"),
    }
}

#[test]
fn test_default_eval_cases() {
    let cases = default_eval_cases();
    assert!(!cases.is_empty());
    assert!(cases.len() >= 5);
}

#[test]
fn test_eval_framework_logic() {
    let case = EvalCase {
        description: "Test case".to_string(),
        user_query: "test".to_string(),
        context_files: vec![],
        expected_command_pattern: "git.*reset".to_string(),
        required_keywords: Some(vec!["git".to_string()]),
        forbidden_keywords: Some(vec!["rm".to_string()]),
    };

    let result = case.evaluate("git reset --soft HEAD~1");
    assert!(matches!(result, EvalResult::Pass));

    let result = case.evaluate("ls -la");
    assert!(matches!(result, EvalResult::Fail(_)));

    let result = case.evaluate("git reset && rm -rf /");
    assert!(matches!(result, EvalResult::Fail(_)));
}

#[test]
fn test_mock_provider_with_eval_cases() {
    let provider = MockAIProvider::new();
    let cases = default_eval_cases();

    for case in cases {
        println!("Testing: {}", case.description);
        let actual_command = stream_answer(&provider, &case);
        let result = case.evaluate(&actual_command);

        match result {
            EvalResult::Pass => {
                println!("  ✓ PASS: {}", actual_command);
            }
            EvalResult::Fail(errors) => {
                println!("  ✗ FAIL: {}", actual_command);
                for error in errors {
                    println!("    - {}", error);
                }
                panic!("Eval case failed: {}", case.description);
            }
        }
    }
}

#[test]
fn test_specific_git_reset_case() {
    let provider = MockAIProvider::new();
    let case = EvalCase {
        description: "git reset".to_string(),
        user_query: "undo last git commit".to_string(),
        context_files: vec![],
        expected_command_pattern: String::new(),
        required_keywords: None,
        forbidden_keywords: None,
    };
    let command = stream_answer(&provider, &case);

    assert!(command.contains("git"));
    assert!(command.contains("reset") || command.contains("revert"));
}

#[test]
fn test_list_files_case() {
    let provider = MockAIProvider::new();
    let case = EvalCase {
        description: "list files".to_string(),
        user_query: "list files".to_string(),
        context_files: vec![],
        expected_command_pattern: String::new(),
        required_keywords: None,
        forbidden_keywords: None,
    };
    let command = stream_answer(&provider, &case);

    assert!(command.contains("ls"));
}
