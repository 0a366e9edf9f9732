//! The destructive-command policy: a fixed danger list matched
//! case-insensitively against a command, and the advisory text built from
//! the verdict.  This is policy over strings, independent of the streaming
//! layer, and has no state.

use vstd::prelude::*;

use crate::text::{folded_contains, folded_contains_exec};

verus! {

/// The fixed danger list.  Matching lower-cases the command alone, exactly
/// as the policy is written, so entries with upper-case letters can only
/// match where the command keeps them.
pub open spec fn danger_patterns() -> Seq<Seq<char>> {
    seq![
        "rm -rf"@,
        "rm -fr"@,
        "drop table"@,
        "drop database"@,
        "delete from"@,
        "truncate"@,
        "mkfs"@,
        "dd if="@,
        "> /dev/"@,
        ":(){ :|:& };:"@,
        "chmod -R 777"@,
        "chown -R"@,
    ]
}

/// Whether the lower-cased command contains any danger pattern.
pub open spec fn is_destructive_cmd(cmd: Seq<char>) -> bool {
    exists|i: int|
        0 <= i < danger_patterns().len() && folded_contains(cmd, #[trigger] danger_patterns()[i])
}

/// The warning text for a destructive command.
pub open spec fn destructive_text(cmd: Seq<char>) -> Seq<char> {
    "⚠️  WARNING: This command appears to be destructive!\n\nCommand: "@ + cmd
        + "\n\nThis may delete files, modify permissions, or cause irreversible changes."@
}

/// The advisory text for a command judged safe.
pub open spec fn safe_text(cmd: Seq<char>) -> Seq<char> {
    "Command: "@ + cmd + "\n\nThis command appears safe to execute."@
}

/// The dry-run analysis surface: destructive-command detection and the
/// advisory text shown before execution.
pub struct CommandExecutor;

impl CommandExecutor {
    /// Whether a command matches the danger list, case-insensitively.
    pub fn is_destructive(command: &str) -> (r: bool)
        ensures
            r == is_destructive_cmd(command@),
    {
        let ghost pats = danger_patterns();
        let r = folded_contains_exec(command, "rm -rf") || folded_contains_exec(command, "rm -fr")
            || folded_contains_exec(command, "drop table") || folded_contains_exec(
            command,
            "drop database",
        ) || folded_contains_exec(command, "delete from") || folded_contains_exec(
            command,
            "truncate",
        ) || folded_contains_exec(command, "mkfs") || folded_contains_exec(command, "dd if=")
            || folded_contains_exec(command, "> /dev/") || folded_contains_exec(
            command,
            ":(){ :|:& };:",
        ) || folded_contains_exec(command, "chmod -R 777") || folded_contains_exec(
            command,
            "chown -R",
        );
        proof {
            assert(pats[0] == "rm -rf"@);
            assert(pats[1] == "rm -fr"@);
            assert(pats[2] == "drop table"@);
            assert(pats[3] == "drop database"@);
            assert(pats[4] == "delete from"@);
            assert(pats[5] == "truncate"@);
            assert(pats[6] == "mkfs"@);
            assert(pats[7] == "dd if="@);
            assert(pats[8] == "> /dev/"@);
            assert(pats[9] == ":(){ :|:& };:"@);
            assert(pats[10] == "chmod -R 777"@);
            assert(pats[11] == "chown -R"@);
            if r {
                assert(is_destructive_cmd(command@));
            } else {
                assert(forall|i: int|
                    0 <= i < pats.len() ==> !folded_contains(command@, #[trigger] pats[i]));
            }
        }
        r
    }

    /// The advisory text for a command: a warning when the danger list
    /// matches, a safety note otherwise.
    pub fn analyze_command(command: &str) -> (r: String)
        ensures
            is_destructive_cmd(command@) ==> r@ == destructive_text(command@),
            !is_destructive_cmd(command@) ==> r@ == safe_text(command@),
    {
        if Self::is_destructive(command) {
            let mut r = String::new();
            r.append("⚠️  WARNING: This command appears to be destructive!\n\nCommand: ");
            r.append(command);
            r.append("\n\nThis may delete files, modify permissions, or cause irreversible changes.");
            r
        } else {
            let mut r = String::new();
            r.append("Command: ");
            r.append(command);
            r.append("\n\nThis command appears safe to execute.");
            r
        }
    }
}

} // verus!
