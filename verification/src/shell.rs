//! The shell-session collaborator: the session context written by shell
//! hooks, the well-known paths it lives at, and the extraction of the most
//! recent commands from a history file's text.  Reading and writing the
//! files themselves is I/O and lives outside the library.

use vstd::prelude::*;

use crate::text::push_dv;

verus! {

/// One shell session's context, as the hooks record it.
#[derive(Debug, Clone)]
pub struct ShellContext {
    pub last_command: Option<String>,
    pub last_exit_code: Option<i32>,
    pub last_error: Option<String>,
    pub working_directory: String,
    pub shell_type: String,
}

impl ShellContext {
    /// The path of the session-context file written by the hooks.
    pub fn get_context_path() -> (r: String)
        ensures
            r@ == "/tmp/aether/context.json"@,
    {
        "/tmp/aether/context.json".to_owned()
    }

    /// The path of the last-session marker used by the error-diagnosis
    /// mode.
    pub fn get_last_session_path() -> (r: String)
        ensures
            r@ == "/tmp/aether/last_session"@,
    {
        "/tmp/aether/last_session".to_owned()
    }
}

/// A gathered line with one trailing carriage return removed.
pub open spec fn strip_cr_chars(s: Seq<char>) -> Seq<char> {
    if s.len() > 0 && s.last() == '\r' {
        s.drop_last()
    } else {
        s
    }
}

/// The lines of a text, split at newlines, each without its optional
/// trailing carriage return; a final fragment without a newline counts,
/// an empty one does not.
pub open spec fn text_lines_from(cur: Seq<char>, s: Seq<char>) -> Seq<Seq<char>>
    decreases s.len(),
{
    if s.len() == 0 {
        if cur.len() > 0 {
            seq![strip_cr_chars(cur)]
        } else {
            seq![]
        }
    } else if s[0] == '\n' {
        seq![strip_cr_chars(cur)] + text_lines_from(Seq::empty(), s.skip(1))
    } else {
        text_lines_from(cur.push(s[0]), s.skip(1))
    }
}

/// The lines of a whole text.
pub open spec fn text_lines(s: Seq<char>) -> Seq<Seq<char>> {
    text_lines_from(Seq::empty(), s)
}

/// The most recent `limit` lines of a text, most recent first.
pub open spec fn recent_of(s: Seq<char>, limit: nat) -> Seq<Seq<char>> {
    let ls = text_lines(s);
    let n: nat = if limit < ls.len() {
        limit
    } else {
        ls.len()
    };
    Seq::new(n, |i: int| ls[ls.len() - 1 - i])
}

/// Extracts the most recent `limit` commands from a history file's text,
/// most recent first.
pub fn recent_lines(content: &str, limit: usize) -> (r: Vec<String>)
    ensures
        r.deep_view() == recent_of(content@, limit as nat),
{
    let len = content.unicode_len();
    let mut lines: Vec<String> = Vec::new();
    let mut start: usize = 0;
    let mut i: usize = 0;
    proof {
        assert(content@.subrange(0, 0) =~= Seq::<char>::empty());
        assert(content@.skip(0) =~= content@);
        assert(Seq::<Seq<char>>::empty() + text_lines(content@) =~= text_lines(content@));
    }
    while i < len
        invariant
            start <= i <= len,
            len == content@.len(),
            lines.deep_view() + text_lines_from(
                content@.subrange(start as int, i as int),
                content@.skip(i as int),
            ) == text_lines(content@),
        decreases len - i,
    {
        proof {
            assert(content@.skip(i as int)[0] == content@[i as int]);
            assert(content@.skip(i as int).skip(1) =~= content@.skip(i + 1));
        }
        let c = content.get_char(i);
        if c == '\n' {
            let end = if i > start && content.get_char(i - 1) == '\r' {
                i - 1
            } else {
                i
            };
            let line = content.substring_char(start, end).to_owned();
            let ghost cur = content@.subrange(start as int, i as int);
            let ghost lines0 = lines.deep_view();
            proof {
                if i > start && content@[i as int - 1] == '\r' {
                    assert(cur.last() == content@[i as int - 1]);
                    assert(line@ =~= strip_cr_chars(cur));
                } else {
                    assert(line@ =~= strip_cr_chars(cur));
                }
                assert(text_lines_from(cur, content@.skip(i as int)) == seq![strip_cr_chars(cur)]
                    + text_lines_from(Seq::empty(), content@.skip(i + 1)));
            }
            push_dv(&mut lines, line);
            proof {
                assert(lines.deep_view() == lines0.push(strip_cr_chars(cur)));
                assert(lines0.push(strip_cr_chars(cur)) + text_lines_from(
                    Seq::empty(),
                    content@.skip(i + 1),
                ) =~= lines0 + (seq![strip_cr_chars(cur)] + text_lines_from(
                    Seq::empty(),
                    content@.skip(i + 1),
                )));
                assert(content@.subrange(i + 1, i + 1) =~= Seq::<char>::empty());
            }
            start = i + 1;
        } else {
            proof {
                assert(content@.subrange(start as int, i + 1) =~= content@.subrange(
                    start as int,
                    i as int,
                ).push(content@[i as int]));
            }
        }
        i = i + 1;
    }
    proof {
        assert(content@.skip(len as int) =~= Seq::<char>::empty());
    }
    if start < len {
        let end = if content.get_char(len - 1) == '\r' {
            len - 1
        } else {
            len
        };
        let line = content.substring_char(start, end).to_owned();
        let ghost cur = content@.subrange(start as int, len as int);
        let ghost lines0 = lines.deep_view();
        proof {
            assert(cur.last() == content@[len as int - 1]);
            assert(line@ =~= strip_cr_chars(cur));
            assert(text_lines_from(cur, Seq::empty()) == seq![strip_cr_chars(cur)]);
        }
        push_dv(&mut lines, line);
        proof {
            assert(lines.deep_view() == lines0.push(strip_cr_chars(cur)));
            assert(lines0.push(strip_cr_chars(cur)) =~= lines0 + seq![strip_cr_chars(cur)]);
            assert(lines.deep_view() == text_lines(content@));
        }
    } else {
        proof {
            assert(content@.subrange(start as int, len as int) =~= Seq::<char>::empty());
            assert(text_lines_from(Seq::empty(), Seq::<char>::empty()) =~= Seq::<Seq<char>>::empty());
            assert(lines.deep_view() + Seq::<Seq<char>>::empty() =~= lines.deep_view());
        }
    }
    let ghost ls = text_lines(content@);
    proof {
        assert(lines.deep_view() == ls);
        assert(ls.len() == lines@.len());
    }
    let count = lines.len();
    let take_n = if limit < count {
        limit
    } else {
        count
    };
    let mut out: Vec<String> = Vec::new();
    let mut k: usize = 0;
    proof {
        assert(out.deep_view() =~= Seq::<Seq<char>>::empty());
    }
    while k < take_n
        invariant
            k <= take_n,
            take_n <= count,
            count == lines@.len(),
            ls == lines.deep_view(),
            ls.len() == lines@.len(),
            take_n == (if limit < count {
                limit as int
            } else {
                count as int
            }),
            out.deep_view().len() == k,
            forall|j: int| 0 <= j < k ==> out.deep_view()[j] == ls[ls.len() - 1 - j],
        decreases take_n - k,
    {
        let idx = count - 1 - k;
        let line = lines[idx].clone();
        proof {
            assert(lines.deep_view()[idx as int] == lines@[idx as int]@);
        }
        push_dv(&mut out, line);
        k = k + 1;
    }
    proof {
        assert(out.deep_view() =~= recent_of(content@, limit as nat));
    }
    out
}

} // verus!
