//! The destructive-command policy and the dry-run analysis.

use aether::brain;
use aether::executor::CommandExecutor;

#[test]
fn test_destructive_command_detection() {
    assert!(CommandExecutor::is_destructive("rm -rf /"));
    assert!(CommandExecutor::is_destructive("DROP TABLE users"));
    assert!(CommandExecutor::is_destructive("dd if=/dev/zero of=/dev/sda"));
    assert!(!CommandExecutor::is_destructive("ls -la"));
    assert!(!CommandExecutor::is_destructive("echo 'hello world'"));
}

#[test]
fn integration_test_test_destructive_command_detection() {
    let destructive_commands = vec![
        "rm -rf /",
        "DROP TABLE users",
        "dd if=/dev/zero of=/dev/sda",
    ];
    let safe_commands = vec!["ls -la", "echo 'hello world'", "git status"];

    for cmd in destructive_commands {
        assert!(CommandExecutor::is_destructive(cmd));
    }
    for cmd in safe_commands {
        assert!(!CommandExecutor::is_destructive(cmd));
    }
}

#[test]
fn test_brain_command_analysis() {
    let analysis = brain::analyze_command("rm -rf /");
    assert!(analysis.is_destructive);

    let analysis = brain::analyze_command("ls -la");
    assert!(!analysis.is_destructive);
}

#[test]
fn test_analyze_command_texts() {
    let warning = CommandExecutor::analyze_command("rm -rf /tmp/x");
    assert!(warning.contains("WARNING"));
    assert!(warning.contains("rm -rf /tmp/x"));

    let safe = CommandExecutor::analyze_command("git status");
    assert_eq!(
        safe,
        "Command: git status\n\nThis command appears safe to execute."
    );
}

#[test]
fn test_mixed_case_detection() {
    assert!(CommandExecutor::is_destructive("Drop Table accounts"));
    assert!(CommandExecutor::is_destructive("RM -RF ."));
    assert!(!CommandExecutor::is_destructive("describe table users"));
}
