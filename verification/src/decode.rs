//! The cross-chunk frame decoder.  A network chunk may end mid-line, so a
//! decoder session carries the trailing incomplete line between chunks and
//! prepends it to the next chunk before splitting into complete frames.
//! The central law here is chunk-boundary invariance: however a byte stream
//! is cut into chunks, a session emits the same complete lines — and hence
//! the same fragments, in the same order — as it would emit for the whole
//! stream delivered at once.

use vstd::prelude::*;

use crate::anthropic;
use crate::client::ErrorKind;
use crate::gemini;
use crate::ollama;
use crate::openai;
use crate::text::{append_strings, push_dv};

verus! {

/// Which provider dialect a session decodes.
#[derive(Debug, Clone, Copy, PartialEq, Eq, Structural)]
pub enum Dialect {
    Anthropic,
    OpenAi,
    Ollama,
    Gemini,
}

/// The fragments of one complete line under a dialect; `None` is a decode
/// error.
pub open spec fn line_frags(d: Dialect, line: Seq<u8>) -> Option<Seq<Seq<char>>> {
    match d {
        Dialect::Anthropic => anthropic::line_frags(line),
        Dialect::OpenAi => openai::line_frags(line),
        Dialect::Ollama => ollama::line_frags(line),
        Dialect::Gemini => gemini::line_frags(line),
    }
}

/// Decodes one complete line under a dialect.
pub fn decode_line(d: Dialect, line: &[u8]) -> (r: Result<Vec<String>, ErrorKind>)
    ensures
        match r {
            Ok(v) => line_frags(d, line@) == Some(v.deep_view()),
            Err(e) => line_frags(d, line@) is None && e is Decode,
        },
{
    match d {
        Dialect::Anthropic => anthropic::decode_line(line),
        Dialect::OpenAi => openai::decode_line(line),
        Dialect::Ollama => ollama::decode_line(line),
        Dialect::Gemini => gemini::decode_line(line),
    }
}

/// The complete lines found while scanning `s` with `cur` already carried:
/// each newline finishes the line gathered so far.
pub open spec fn lines_from(cur: Seq<u8>, s: Seq<u8>) -> Seq<Seq<u8>>
    decreases s.len(),
{
    if s.len() == 0 {
        seq![]
    } else if s[0] == 10 {
        seq![cur] + lines_from(Seq::empty(), s.skip(1))
    } else {
        lines_from(cur.push(s[0]), s.skip(1))
    }
}

/// The bytes left after the last newline of `s`, with `cur` already
/// carried: the incomplete trailing line.
pub open spec fn rest_from(cur: Seq<u8>, s: Seq<u8>) -> Seq<u8>
    decreases s.len(),
{
    if s.len() == 0 {
        cur
    } else if s[0] == 10 {
        rest_from(Seq::empty(), s.skip(1))
    } else {
        rest_from(cur.push(s[0]), s.skip(1))
    }
}

/// The fragments of a list of complete lines, concatenated in order;
/// `None` as soon as any line is a decode error.
pub open spec fn frags_of_lines(d: Dialect, lines: Seq<Seq<u8>>) -> Option<Seq<Seq<char>>>
    decreases lines.len(),
{
    if lines.len() == 0 {
        Some(seq![])
    } else {
        match line_frags(d, lines[0]) {
            None => None,
            Some(f) => match frags_of_lines(d, lines.skip(1)) {
                None => None,
                Some(rest) => Some(f + rest),
            },
        }
    }
}

/// The concatenation of a sequence of chunks.
pub open spec fn concat_chunks(chunks: Seq<Seq<u8>>) -> Seq<u8>
    decreases chunks.len(),
{
    if chunks.len() == 0 {
        Seq::empty()
    } else {
        chunks[0] + concat_chunks(chunks.skip(1))
    }
}

/// The complete lines a session emits over a whole chunk sequence, feeding
/// chunk after chunk, starting with `buf` carried.
pub open spec fn chunks_lines(buf: Seq<u8>, chunks: Seq<Seq<u8>>) -> Seq<Seq<u8>>
    decreases chunks.len(),
{
    if chunks.len() == 0 {
        seq![]
    } else {
        lines_from(buf, chunks[0]) + chunks_lines(rest_from(buf, chunks[0]), chunks.skip(1))
    }
}

/// The bytes a session still carries after a whole chunk sequence.
pub open spec fn chunks_rest(buf: Seq<u8>, chunks: Seq<Seq<u8>>) -> Seq<u8>
    decreases chunks.len(),
{
    if chunks.len() == 0 {
        buf
    } else {
        chunks_rest(rest_from(buf, chunks[0]), chunks.skip(1))
    }
}

/// Scanning distributes over concatenation: the lines of `a + b` are the
/// lines of `a` followed by the lines of `b` scanned with `a`'s remainder
/// carried, and the remainders agree.
pub proof fn lemma_scan_append(cur: Seq<u8>, a: Seq<u8>, b: Seq<u8>)
    ensures
        lines_from(cur, a + b) == lines_from(cur, a) + lines_from(rest_from(cur, a), b),
        rest_from(cur, a + b) == rest_from(rest_from(cur, a), b),
    decreases a.len(),
{
    if a.len() == 0 {
        assert(a + b =~= b);
        assert(lines_from(cur, a) =~= Seq::<Seq<u8>>::empty());
        assert(rest_from(cur, a) == cur);
        assert(Seq::<Seq<u8>>::empty() + lines_from(cur, b) =~= lines_from(cur, b));
    } else {
        assert((a + b)[0] == a[0]);
        assert((a + b).skip(1) =~= a.skip(1) + b);
        assert((a + b).len() > 0);
        if a[0] == 10 {
            lemma_scan_append(Seq::empty(), a.skip(1), b);
            assert(lines_from(cur, a + b) == seq![cur] + lines_from(Seq::empty(), a.skip(1) + b));
            assert(lines_from(cur, a) == seq![cur] + lines_from(Seq::empty(), a.skip(1)));
            assert(rest_from(cur, a) == rest_from(Seq::empty(), a.skip(1)));
            assert(seq![cur] + (lines_from(Seq::empty(), a.skip(1)) + lines_from(
                rest_from(Seq::empty(), a.skip(1)),
                b,
            )) =~= (seq![cur] + lines_from(Seq::empty(), a.skip(1))) + lines_from(
                rest_from(Seq::empty(), a.skip(1)),
                b,
            ));
        } else {
            lemma_scan_append(cur.push(a[0]), a.skip(1), b);
            assert(lines_from(cur, a + b) == lines_from(cur.push(a[0]), a.skip(1) + b));
            assert(lines_from(cur, a) == lines_from(cur.push(a[0]), a.skip(1)));
            assert(rest_from(cur, a) == rest_from(cur.push(a[0]), a.skip(1)));
        }
    }
}

/// Decoding distributes over concatenation of line lists: the fragments of
/// `la + lb` are the fragments of `la` followed by those of `lb`, and a
/// decode error anywhere is a decode error of the whole.
pub proof fn lemma_frags_append(d: Dialect, la: Seq<Seq<u8>>, lb: Seq<Seq<u8>>)
    ensures
        frags_of_lines(d, la + lb) == (match (frags_of_lines(d, la), frags_of_lines(d, lb)) {
            (Some(x), Some(y)) => Some(x + y),
            _ => None::<Seq<Seq<char>>>,
        }),
    decreases la.len(),
{
    if la.len() == 0 {
        assert(la + lb =~= lb);
        assert(frags_of_lines(d, la) == Some(Seq::<Seq<char>>::empty()));
        match frags_of_lines(d, lb) {
            Some(y) => {
                assert(Seq::<Seq<char>>::empty() + y =~= y);
            },
            None => {},
        }
    } else {
        assert((la + lb)[0] == la[0]);
        assert((la + lb).skip(1) =~= la.skip(1) + lb);
        assert((la + lb).len() > 0);
        lemma_frags_append(d, la.skip(1), lb);
        match line_frags(d, la[0]) {
            None => {},
            Some(f) => {
                match (frags_of_lines(d, la.skip(1)), frags_of_lines(d, lb)) {
                    (Some(x), Some(y)) => {
                        assert(f + (x + y) =~= (f + x) + y);
                    },
                    _ => {},
                }
            },
        }
    }
}

/// Chunk-boundary invariance: however a byte stream is cut into chunks —
/// including cuts mid-line and mid-token — a session emits the same
/// complete lines, carries the same remainder, and hence yields the same
/// fragments in the same order, as when the whole stream arrives as one
/// chunk.
pub proof fn lemma_chunk_boundary_invariance(d: Dialect, buf: Seq<u8>, chunks: Seq<Seq<u8>>)
    ensures
        chunks_lines(buf, chunks) == lines_from(buf, concat_chunks(chunks)),
        chunks_rest(buf, chunks) == rest_from(buf, concat_chunks(chunks)),
        frags_of_lines(d, chunks_lines(buf, chunks)) == frags_of_lines(
            d,
            lines_from(buf, concat_chunks(chunks)),
        ),
    decreases chunks.len(),
{
    if chunks.len() == 0 {
        assert(lines_from(buf, Seq::<u8>::empty()) =~= Seq::<Seq<u8>>::empty());
        assert(chunks_lines(buf, chunks) =~= Seq::<Seq<u8>>::empty());
    } else {
        lemma_chunk_boundary_invariance(d, rest_from(buf, chunks[0]), chunks.skip(1));
        lemma_scan_append(buf, chunks[0], concat_chunks(chunks.skip(1)));
    }
}

/// A per-request decoder session: the dialect and the carried bytes of the
/// incomplete trailing line.  One session serves exactly one request and is
/// discarded when the stream ends or fails.
#[derive(Debug)]
pub struct DecoderSession {
    pub dialect: Dialect,
    pub buf: Vec<u8>,
}

impl DecoderSession {
    /// A fresh session with an empty carry buffer.
    pub fn new(dialect: Dialect) -> (r: Self)
        ensures
            r.dialect == dialect,
            r.buf@ == Seq::<u8>::empty(),
    {
        DecoderSession { dialect, buf: Vec::new() }
    }

    /// Feeds one network chunk: completes lines against the carried bytes,
    /// decodes every completed line, and keeps the new trailing remainder.
    /// The fragments emitted and the remainder kept are a function of the
    /// carried bytes and the chunk alone.
    pub fn feed(&mut self, chunk: &[u8]) -> (r: Result<Vec<String>, ErrorKind>)
        ensures
            final(self).dialect == old(self).dialect,
            final(self).buf@ == rest_from(old(self).buf@, chunk@),
            match r {
                Ok(frags) => frags_of_lines(old(self).dialect, lines_from(old(self).buf@, chunk@))
                    == Some(frags.deep_view()),
                Err(e) => frags_of_lines(old(self).dialect, lines_from(old(self).buf@, chunk@))
                    is None && e is Decode,
            },
    {
        let ghost buf0 = self.buf@;
        let mut cur: Vec<u8> = Vec::new();
        core::mem::swap(&mut cur, &mut self.buf);
        let mut lines: Vec<Vec<u8>> = Vec::new();
        proof {
            assert(chunk@.skip(0) =~= chunk@);
            assert(Seq::<Seq<u8>>::empty() + lines_from(buf0, chunk@) =~= lines_from(
                buf0,
                chunk@,
            ));
        }
        let mut i: usize = 0;
        while i < chunk.len()
            invariant
                i <= chunk@.len(),
                lines.deep_view() + lines_from(cur@, chunk@.skip(i as int)) == lines_from(
                    buf0,
                    chunk@,
                ),
                rest_from(cur@, chunk@.skip(i as int)) == rest_from(buf0, chunk@),
            decreases chunk@.len() - i,
        {
            proof {
                assert(chunk@.skip(i as int)[0] == chunk@[i as int]);
                assert(chunk@.skip(i as int).skip(1) =~= chunk@.skip(i + 1));
            }
            let b = chunk[i];
            if b == 10 {
                let ghost lines0 = lines.deep_view();
                let ghost cv = cur@;
                let mut finished: Vec<u8> = Vec::new();
                core::mem::swap(&mut finished, &mut cur);
                proof {
                    assert(finished.deep_view() =~= cv);
                }
                push_dv(&mut lines, finished);
                proof {
                    assert(lines.deep_view() == lines0.push(cv));
                    assert(cur@ =~= Seq::<u8>::empty());
                    assert(lines_from(cv, chunk@.skip(i as int)) == seq![cv] + lines_from(
                        Seq::empty(),
                        chunk@.skip(i + 1),
                    ));
                    assert(lines0.push(cv) + lines_from(Seq::empty(), chunk@.skip(i + 1))
                        =~= lines0 + (seq![cv] + lines_from(Seq::empty(), chunk@.skip(i + 1))));
                }
            } else {
                cur.push(b);
            }
            i = i + 1;
        }
        proof {
            assert(chunk@.skip(chunk@.len() as int) =~= Seq::<u8>::empty());
            assert(lines.deep_view() + Seq::<Seq<u8>>::empty() =~= lines.deep_view());
            assert(lines.deep_view() == lines_from(buf0, chunk@));
            assert(cur@ == rest_from(buf0, chunk@));
        }
        self.buf = cur;
        let ghost d = self.dialect;
        let ghost all = lines.deep_view();
        let mut out: Vec<String> = Vec::new();
        proof {
            assert(all.skip(0) =~= all);
            assert(out.deep_view() =~= Seq::<Seq<char>>::empty());
            match frags_of_lines(d, all) {
                None => {},
                Some(rem) => {
                    assert(out.deep_view() + rem =~= rem);
                },
            }
        }
        let mut k: usize = 0;
        while k < lines.len()
            invariant
                k <= lines@.len(),
                all == lines.deep_view(),
                all.len() == lines@.len(),
                all == lines_from(old(self).buf@, chunk@),
                self.dialect == old(self).dialect,
                d == self.dialect,
                self.buf@ == rest_from(old(self).buf@, chunk@),
                match frags_of_lines(d, all.skip(k as int)) {
                    None => frags_of_lines(d, all) is None,
                    Some(rem) => frags_of_lines(d, all) == Some(out.deep_view() + rem),
                },
            decreases lines@.len() - k,
        {
            proof {
                assert(all.skip(k as int)[0] == all[k as int]);
                assert(all[k as int] == lines@[k as int].deep_view());
                assert(lines@[k as int].deep_view() =~= lines@[k as int]@);
                assert(all.skip(k as int).skip(1) =~= all.skip(k + 1));
            }
            match decode_line(self.dialect, lines[k].as_slice()) {
                Ok(v) => {
                    let ghost vdv = v.deep_view();
                    let ghost out0 = out.deep_view();
                    append_strings(&mut out, v);
                    proof {
                        assert(line_frags(d, all[k as int]) == Some(vdv));
                        match frags_of_lines(d, all.skip(k + 1)) {
                            None => {
                                assert(frags_of_lines(d, all.skip(k as int)) is None);
                            },
                            Some(rem) => {
                                assert(frags_of_lines(d, all.skip(k as int)) == Some(vdv + rem));
                                assert(frags_of_lines(d, all) == Some(out0 + (vdv + rem)));
                                assert(out0 + (vdv + rem) =~= (out0 + vdv) + rem);
                                assert(out.deep_view() == out0 + vdv);
                            },
                        }
                    }
                },
                Err(e) => {
                    proof {
                        assert(frags_of_lines(d, all.skip(k as int)) is None);
                    }
                    return Err(e);
                },
            }
            k = k + 1;
        }
        proof {
            assert(all.skip(lines@.len() as int) =~= Seq::<Seq<u8>>::empty());
            assert(frags_of_lines(d, Seq::<Seq<u8>>::empty()) == Some(Seq::<Seq<char>>::empty()));
            assert(out.deep_view() + Seq::<Seq<char>>::empty() =~= out.deep_view());
        }
        Ok(out)
    }

    /// Ends the stream.  End-of-stream with carried bytes still incomplete
    /// is a decode error, not a silent drop.
    pub fn finish(&mut self) -> (r: Result<(), ErrorKind>)
        ensures
            final(self).dialect == old(self).dialect,
            final(self).buf@ == Seq::<u8>::empty(),
            match r {
                Ok(u) => old(self).buf@.len() == 0,
                Err(e) => old(self).buf@.len() > 0 && e is Decode,
            },
    {
        let empty = self.buf.len() == 0;
        self.buf.clear();
        if empty {
            Ok(())
        } else {
            Err(ErrorKind::Decode)
        }
    }
}

} // verus!
