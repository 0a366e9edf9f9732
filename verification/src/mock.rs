//! The deterministic test double of the completion capability: canned
//! responses behind case-insensitive exact and substring lookup, a pull
//! stream that chunks the canned answer into fixed-size pieces, and a fixed
//! fix-suggestion.  Everything is a function of the inputs, so the double
//! can anchor end-to-end tests without a live model.

use vstd::prelude::*;

use crate::client::CompletionRequest;
use crate::text::{concat_all, folded_contains, folded_contains_exec, folded_eq, folded_eq_exec,
    folded_inside, folded_inside_exec, lemma_concat_all_push, push_dv, str_eq_exec};
use vstd::pervasive::VecAdditionalExecFns;

verus! {

/// The canned query-to-command table, in insertion order.
pub open spec fn canned_responses() -> Seq<(Seq<char>, Seq<char>)> {
    seq![
        ("list files"@, "ls -la"@),
        ("find python files"@, "find . -name '*.py'"@),
        ("undo last git commit"@, "git reset --soft HEAD~1"@),
        ("undo last 3 git commits"@, "git reset --soft HEAD~3"@),
        ("show git status"@, "git status"@),
        (
            "find all python files modified yesterday and tar them"@,
            "find . -name '*.py' -mtime -1 | xargs tar -cvf archive.tar"@,
        ),
        ("delete all log files"@, "find . -name '*.log' -delete"@),
    ]
}

/// The first pair whose key equals the lower-cased query.
pub open spec fn lookup_exact(pairs: Seq<(Seq<char>, Seq<char>)>, q: Seq<char>) -> Option<
    Seq<char>,
>
    decreases pairs.len(),
{
    if pairs.len() == 0 {
        None
    } else if folded_eq(q, pairs[0].0) {
        Some(pairs[0].1)
    } else {
        lookup_exact(pairs.skip(1), q)
    }
}

/// A fuzzy hit: the lower-cased query contains the key, or the key
/// contains the lower-cased query.
pub open spec fn fuzzy_hit(q: Seq<char>, key: Seq<char>) -> bool {
    folded_contains(q, key) || folded_inside(q, key)
}

/// The first pair hit by the fuzzy rule.
pub open spec fn lookup_fuzzy(pairs: Seq<(Seq<char>, Seq<char>)>, q: Seq<char>) -> Option<
    Seq<char>,
>
    decreases pairs.len(),
{
    if pairs.len() == 0 {
        None
    } else if fuzzy_hit(q, pairs[0].0) {
        Some(pairs[0].1)
    } else {
        lookup_fuzzy(pairs.skip(1), q)
    }
}

/// The double's answer to a query: exact match first, then fuzzy match,
/// then the configured default — never an error.
pub open spec fn response_for(
    pairs: Seq<(Seq<char>, Seq<char>)>,
    dflt: Seq<char>,
    q: Seq<char>,
) -> Seq<char> {
    match lookup_exact(pairs, q) {
        Some(v) => v,
        None => match lookup_fuzzy(pairs, q) {
            Some(v) => v,
            None => dflt,
        },
    }
}

/// `pairs` with the value for `k` replaced, or `(k, v)` appended when `k`
/// is absent.
pub open spec fn upsert(
    pairs: Seq<(Seq<char>, Seq<char>)>,
    k: Seq<char>,
    v: Seq<char>,
) -> Seq<(Seq<char>, Seq<char>)>
    decreases pairs.len(),
{
    if pairs.len() == 0 {
        seq![(k, v)]
    } else if pairs[0].0 == k {
        seq![(k, v)] + pairs.skip(1)
    } else {
        seq![pairs[0]] + upsert(pairs.skip(1), k, v)
    }
}

proof fn lemma_upsert_found(pairs: Seq<(Seq<char>, Seq<char>)>, k: Seq<char>, v: Seq<char>, i: int)
    requires
        0 <= i < pairs.len(),
        pairs[i].0 == k,
        forall|j: int| 0 <= j < i ==> (#[trigger] pairs[j]).0 != k,
    ensures
        upsert(pairs, k, v) == pairs.update(i, (k, v)),
    decreases i,
{
    if i == 0 {
        assert(upsert(pairs, k, v) =~= pairs.update(0, (k, v)));
    } else {
        assert(pairs[0].0 != k);
        assert(pairs.skip(1)[i - 1].0 == k);
        assert(forall|j: int| 0 <= j < i - 1 ==> (#[trigger] pairs.skip(1)[j]).0 != k);
        lemma_upsert_found(pairs.skip(1), k, v, i - 1);
        assert(seq![pairs[0]] + pairs.skip(1).update(i - 1, (k, v)) =~= pairs.update(i, (k, v)));
    }
}

proof fn lemma_upsert_absent(pairs: Seq<(Seq<char>, Seq<char>)>, k: Seq<char>, v: Seq<char>)
    requires
        forall|j: int| 0 <= j < pairs.len() ==> (#[trigger] pairs[j]).0 != k,
    ensures
        upsert(pairs, k, v) == pairs.push((k, v)),
    decreases pairs.len(),
{
    if pairs.len() == 0 {
        assert(upsert(pairs, k, v) =~= pairs.push((k, v)));
    } else {
        assert(pairs[0].0 != k);
        assert(forall|j: int|
            0 <= j < pairs.skip(1).len() ==> (#[trigger] pairs.skip(1)[j]).0 != k);
        lemma_upsert_absent(pairs.skip(1), k, v);
        assert(seq![pairs[0]] + pairs.skip(1).push((k, v)) =~= pairs.push((k, v)));
    }
}

/// The deterministic provider double: predefined responses for known
/// queries and a configurable default for everything else.
#[derive(Debug)]
pub struct MockAIProvider {
    pub responses: Vec<(String, String)>,
    pub default_response: String,
}

impl MockAIProvider {
    /// A double preloaded with the canned table and the stock default.
    pub fn new() -> (r: Self)
        ensures
            r.responses.deep_view() == canned_responses(),
            r.default_response@ == "echo 'Command not found in mock responses'"@,
    {
        let mut responses: Vec<(String, String)> = Vec::new();
        push_dv(&mut responses, ("list files".to_owned(), "ls -la".to_owned()));
        push_dv(&mut responses, ("find python files".to_owned(), "find . -name '*.py'".to_owned()));
        push_dv(
            &mut responses,
            ("undo last git commit".to_owned(), "git reset --soft HEAD~1".to_owned()),
        );
        push_dv(
            &mut responses,
            ("undo last 3 git commits".to_owned(), "git reset --soft HEAD~3".to_owned()),
        );
        push_dv(&mut responses, ("show git status".to_owned(), "git status".to_owned()));
        push_dv(
            &mut responses,
            (
                "find all python files modified yesterday and tar them".to_owned(),
                "find . -name '*.py' -mtime -1 | xargs tar -cvf archive.tar".to_owned(),
            ),
        );
        push_dv(
            &mut responses,
            ("delete all log files".to_owned(), "find . -name '*.log' -delete".to_owned()),
        );
        proof {
            assert(responses.deep_view() =~= canned_responses());
        }
        MockAIProvider {
            responses,
            default_response: "echo 'Command not found in mock responses'".to_owned(),
        }
    }

    /// Adds or replaces one canned response.
    pub fn with_response(self, query: String, response: String) -> (r: Self)
        ensures
            r.responses.deep_view() == upsert(self.responses.deep_view(), query@, response@),
            r.default_response@ == self.default_response@,
    {
        let MockAIProvider { mut responses, default_response } = self;
        let ghost dv = responses.deep_view();
        let mut i: usize = 0;
        while i < responses.len()
            invariant
                i <= responses@.len(),
                dv == responses.deep_view(),
                dv == self.responses.deep_view(),
                default_response@ == self.default_response@,
                dv.len() == responses@.len(),
                forall|j: int| 0 <= j < i ==> (#[trigger] dv[j]).0 != query@,
            decreases responses@.len() - i,
        {
            proof {
                assert(dv[i as int] == responses@[i as int].deep_view());
            }
            if str_eq_exec(responses[i].0.as_str(), query.as_str()) {
                let ghost qv = query@;
                let ghost rv = response@;
                responses.set(i, (query, response));
                proof {
                    lemma_upsert_found(dv, qv, rv, i as int);
                    assert forall|j: int| 0 <= j < responses@.len() implies responses.deep_view()[j]
                        == dv.update(i as int, (qv, rv))[j] by {
                        assert(responses.deep_view()[j] == responses@[j].deep_view());
                    }
                    assert(responses.deep_view() =~= dv.update(i as int, (qv, rv)));
                }
                return MockAIProvider { responses, default_response };
            }
            i = i + 1;
        }
        proof {
            lemma_upsert_absent(dv, query@, response@);
        }
        push_dv(&mut responses, (query, response));
        MockAIProvider { responses, default_response }
    }

    /// Replaces the default response.
    pub fn with_default(self, response: String) -> (r: Self)
        ensures
            r.responses.deep_view() == self.responses.deep_view(),
            r.default_response@ == response@,
    {
        MockAIProvider { responses: self.responses, default_response: response }
    }

    /// Answers a query: case-insensitive exact match first, then fuzzy
    /// substring match in table order, then the default — never an error.
    pub fn get_response(&self, query: &str) -> (r: String)
        ensures
            r@ == response_for(self.responses.deep_view(), self.default_response@, query@),
    {
        let ghost dv = self.responses.deep_view();
        let ghost q = query@;
        proof {
            assert(dv.skip(0) =~= dv);
        }
        let mut i: usize = 0;
        while i < self.responses.len()
            invariant
                i <= self.responses@.len(),
                dv == self.responses.deep_view(),
                dv.len() == self.responses@.len(),
                q == query@,
                lookup_exact(dv, q) == lookup_exact(dv.skip(i as int), q),
            decreases self.responses@.len() - i,
        {
            proof {
                assert(dv.skip(i as int)[0] == dv[i as int]);
                assert(dv[i as int] == self.responses@[i as int].deep_view());
                assert(dv.skip(i as int).skip(1) =~= dv.skip(i + 1));
            }
            if folded_eq_exec(query, self.responses[i].0.as_str()) {
                proof {
                    assert(lookup_exact(dv.skip(i as int), q) == Some(dv[i as int].1));
                }
                return self.responses[i].1.clone();
            }
            i = i + 1;
        }
        proof {
            assert(dv.skip(dv.len() as int) =~= Seq::<(Seq<char>, Seq<char>)>::empty());
            assert(lookup_exact(dv, q) is None);
            assert(dv.skip(0) =~= dv);
        }
        let mut i: usize = 0;
        while i < self.responses.len()
            invariant
                i <= self.responses@.len(),
                dv == self.responses.deep_view(),
                dv.len() == self.responses@.len(),
                q == query@,
                lookup_exact(dv, q) is None,
                lookup_fuzzy(dv, q) == lookup_fuzzy(dv.skip(i as int), q),
            decreases self.responses@.len() - i,
        {
            proof {
                assert(dv.skip(i as int)[0] == dv[i as int]);
                assert(dv[i as int] == self.responses@[i as int].deep_view());
                assert(dv.skip(i as int).skip(1) =~= dv.skip(i + 1));
            }
            let key = self.responses[i].0.as_str();
            if folded_contains_exec(query, key) || folded_inside_exec(query, key) {
                proof {
                    assert(lookup_fuzzy(dv.skip(i as int), q) == Some(dv[i as int].1));
                }
                return self.responses[i].1.clone();
            }
            i = i + 1;
        }
        proof {
            assert(dv.skip(dv.len() as int) =~= Seq::<(Seq<char>, Seq<char>)>::empty());
            assert(lookup_fuzzy(dv, q) is None);
        }
        self.default_response.clone()
    }

    /// Begins a simulated stream for a request: the canned answer cut into
    /// pieces of at most five characters.  Concatenating the stream's
    /// fragments gives back exactly the non-streaming answer — the content
    /// equivalence the capability contract asks of every provider.
    pub fn stream_completion(&self, req: &CompletionRequest) -> (r: MockStream)
        ensures
            r.pos == 0,
            concat_all(r.chunks.deep_view()) == response_for(
                self.responses.deep_view(),
                self.default_response@,
                req.user_query@,
            ),
            forall|j: int|
                0 <= j < r.chunks.deep_view().len() ==> 1 <= (#[trigger] r.chunks.deep_view()[
                j]).len() <= 5,
            forall|j: int|
                0 <= j < r.chunks.deep_view().len() - 1 ==> (#[trigger] r.chunks.deep_view()[
                j]).len() == 5,
    {
        let response = self.get_response(req.user_query.as_str());
        let chunks = chunk_text(response.as_str());
        MockStream { chunks, pos: 0 }
    }

    /// The fixed fix-suggestion of the double.
    pub fn get_fix_suggestion(&self, error_log: &str) -> (r: String)
        ensures
            r@ == "Mock fix suggestion: Check your configuration file"@,
    {
        let _ = error_log;
        "Mock fix suggestion: Check your configuration file".to_owned()
    }

    /// The double's static model identifier.
    pub fn model_name(&self) -> (r: &'static str)
        ensures
            r@ == "mock-provider"@,
    {
        "mock-provider"
    }
}

/// Cuts a text into fixed-size pieces: every piece holds exactly five
/// characters except the last, which holds the nonempty remainder, and the
/// concatenation is the text itself.
pub fn chunk_text(s: &str) -> (r: Vec<String>)
    ensures
        concat_all(r.deep_view()) == s@,
        forall|j: int|
            0 <= j < r.deep_view().len() ==> 1 <= (#[trigger] r.deep_view()[j]).len() <= 5,
        forall|j: int|
            0 <= j < r.deep_view().len() - 1 ==> (#[trigger] r.deep_view()[j]).len() == 5,
{
    let len = s.unicode_len();
    let mut r: Vec<String> = Vec::new();
    let mut i: usize = 0;
    proof {
        assert(r.deep_view() =~= Seq::<Seq<char>>::empty());
        assert(s@.take(0) =~= Seq::<char>::empty());
    }
    while i < len
        invariant
            i <= len,
            len == s@.len(),
            concat_all(r.deep_view()) == s@.take(i as int),
            forall|j: int|
                0 <= j < r.deep_view().len() ==> 1 <= (#[trigger] r.deep_view()[j]).len() <= 5,
            forall|j: int|
                0 <= j < r.deep_view().len() ==> (i < len ==> (#[trigger] r.deep_view()[
                j]).len() == 5),
            forall|j: int|
                0 <= j < r.deep_view().len() - 1 ==> (#[trigger] r.deep_view()[j]).len() == 5,
        decreases len - i,
    {
        let j = if len - i > 5 {
            i + 5
        } else {
            len
        };
        let piece = s.substring_char(i, j).to_owned();
        let ghost pv = piece@;
        proof {
            lemma_concat_all_push(r.deep_view(), pv);
        }
        push_dv(&mut r, piece);
        proof {
            assert(s@.take(i as int) + s@.subrange(i as int, j as int) =~= s@.take(j as int));
        }
        i = j;
    }
    proof {
        assert(s@.take(s@.len() as int) =~= s@);
    }
    r
}

/// A pull-based handle over the double's fragments.  Pulling past the end
/// yields `None`; abandoning the stream at any point leaves nothing
/// pending and raises no error.
#[derive(Debug)]
pub struct MockStream {
    pub chunks: Vec<String>,
    pub pos: usize,
}

impl MockStream {
    /// Pulls the next fragment, in arrival order.
    pub fn next(&mut self) -> (r: Option<String>)
        ensures
            final(self).chunks == old(self).chunks,
            match r {
                Some(c) => old(self).pos < old(self).chunks@.len() && final(self).pos == old(
                    self,
                ).pos + 1 && c@ == old(self).chunks.deep_view()[old(self).pos as int],
                None => old(self).pos >= old(self).chunks@.len() && final(self).pos == old(
                    self,
                ).pos,
            },
    {
        if self.pos < self.chunks.len() {
            let c = self.chunks[self.pos].clone();
            self.pos = self.pos + 1;
            proof {
                assert(old(self).chunks.deep_view()[old(self).pos as int] == old(self).chunks@[old(
                    self,
                ).pos as int]@);
            }
            Some(c)
        } else {
            None
        }
    }
}

} // verus!
