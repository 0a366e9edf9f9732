//! Verified text utilities shared by the frame decoders, the prompt
//! builders, the deterministic test double and the safety policy:
//! ASCII case folding, substring search, whitespace trimming and
//! concatenation, specified over `Seq<char>` and `Seq<u8>`.

use vstd::prelude::*;

verus! {

// ---------------------------------------------------------------------------
// ASCII case folding, at the level of Unicode scalar values.
// ---------------------------------------------------------------------------

/// The scalar value of `c` after ASCII lower-casing: `'A'..='Z'` shift by 32,
/// every other character is unchanged.
pub open spec fn fold_scalar(c: char) -> u32 {
    if 65 <= c as u32 && c as u32 <= 90 {
        (c as u32 + 32) as u32
    } else {
        c as u32
    }
}

/// `a` equals `b` once `a` alone is ASCII lower-cased.
pub open spec fn folded_eq(a: Seq<char>, b: Seq<char>) -> bool {
    a.len() == b.len() && forall|i: int| 0 <= i < a.len() ==> fold_scalar(a[i]) == b[i] as u32
}

/// `b` occurs in `a` at position `i` once `a` alone is ASCII lower-cased.
pub open spec fn folded_at(a: Seq<char>, b: Seq<char>, i: int) -> bool {
    0 <= i && i + b.len() <= a.len() && folded_eq(a.subrange(i, i + b.len() as int), b)
}

/// `b` is a substring of `a` once `a` alone is ASCII lower-cased.
pub open spec fn folded_contains(a: Seq<char>, b: Seq<char>) -> bool {
    exists|i: int| folded_at(a, b, i)
}

/// Exec mirror of `fold_scalar`.
fn fold_scalar_exec(c: char) -> (r: u32)
    ensures
        r == fold_scalar(c),
{
    let u = c as u32;
    if 65 <= u && u <= 90 {
        u + 32
    } else {
        u
    }
}

/// Whether `a` equals `b` after ASCII lower-casing `a` alone.
pub fn folded_eq_exec(a: &str, b: &str) -> (r: bool)
    ensures
        r == folded_eq(a@, b@),
{
    let alen = a.unicode_len();
    let blen = b.unicode_len();
    if alen != blen {
        return false;
    }
    let mut i: usize = 0;
    while i < alen
        invariant
            i <= alen,
            alen == a@.len(),
            blen == b@.len(),
            alen == blen,
            forall|j: int| 0 <= j < i ==> fold_scalar(a@[j]) == b@[j] as u32,
        decreases alen - i,
    {
        let ca = a.get_char(i);
        let cb = b.get_char(i);
        if fold_scalar_exec(ca) != cb as u32 {
            return false;
        }
        i = i + 1;
    }
    true
}

/// Whether `b` occurs in `a` starting at `i`, after ASCII lower-casing `a`.
fn folded_at_exec(a: &str, b: &str, i: usize) -> (r: bool)
    requires
        i + b@.len() <= a@.len(),
    ensures
        r == folded_at(a@, b@, i as int),
{
    let alen = a.unicode_len();
    let blen = b.unicode_len();
    let mut j: usize = 0;
    while j < blen
        invariant
            j <= blen,
            alen == a@.len(),
            blen == b@.len(),
            i + blen <= alen,
            forall|k: int| 0 <= k < j ==> fold_scalar(a@[i + k]) == (b@[k] as u32),
        decreases blen - j,
    {
        let ca = a.get_char(i + j);
        let cb = b.get_char(j);
        if fold_scalar_exec(ca) != cb as u32 {
            assert(!folded_eq(a@.subrange(i as int, i + b@.len() as int), b@));
            return false;
        }
        j = j + 1;
    }
    assert(folded_eq(a@.subrange(i as int, i + b@.len() as int), b@));
    true
}

/// Whether `b` is a substring of `a` after ASCII lower-casing `a` alone.
pub fn folded_contains_exec(a: &str, b: &str) -> (r: bool)
    ensures
        r == folded_contains(a@, b@),
{
    let alen = a.unicode_len();
    let blen = b.unicode_len();
    if blen > alen {
        assert(forall|i: int| !folded_at(a@, b@, i));
        return false;
    }
    let mut i: usize = 0;
    while i <= alen - blen
        invariant
            blen <= alen,
            alen == a@.len(),
            blen == b@.len(),
            i <= alen - blen + 1,
            forall|k: int| 0 <= k < i ==> !folded_at(a@, b@, k),
        decreases alen - blen - i + 1,
    {
        if folded_at_exec(a, b, i) {
            return true;
        }
        i = i + 1;
    }
    assert(forall|k: int| !folded_at(a@, b@, k));
    false
}

/// The ASCII-lower-cased form of `a` occurs in `b` at position `i`.
pub open spec fn folded_inside_at(a: Seq<char>, b: Seq<char>, i: int) -> bool {
    0 <= i && i + a.len() <= b.len() && folded_eq(a, b.subrange(i, i + a.len() as int))
}

/// `b` holds, somewhere inside, the ASCII-lower-cased form of `a`.
pub open spec fn folded_inside(a: Seq<char>, b: Seq<char>) -> bool {
    exists|i: int| folded_inside_at(a, b, i)
}

/// Whether the ASCII-lower-cased form of `a` occurs inside `b`.
pub fn folded_inside_exec(a: &str, b: &str) -> (r: bool)
    ensures
        r == folded_inside(a@, b@),
{
    let alen = a.unicode_len();
    let blen = b.unicode_len();
    if alen > blen {
        assert(forall|i: int| !folded_inside_at(a@, b@, i));
        return false;
    }
    let mut i: usize = 0;
    while i <= blen - alen
        invariant
            alen <= blen,
            alen == a@.len(),
            blen == b@.len(),
            i <= blen - alen + 1,
            forall|k: int| 0 <= k < i ==> !folded_inside_at(a@, b@, k),
        decreases blen - alen - i + 1,
    {
        let mut j: usize = 0;
        let mut hit = true;
        while j < alen
            invariant
                j <= alen,
                alen == a@.len(),
                blen == b@.len(),
                i + alen <= blen,
                hit ==> forall|k: int|
                    0 <= k < j ==> fold_scalar(a@[k]) == (b@[i + k] as u32),
                !hit ==> !folded_eq(a@, b@.subrange(i as int, i + a@.len() as int)),
            decreases alen - j,
        {
            if hit {
                let ca = a.get_char(j);
                let cb = b.get_char(i + j);
                if fold_scalar_exec(ca) != cb as u32 {
                    hit = false;
                    assert(!folded_eq(a@, b@.subrange(i as int, i + a@.len() as int)));
                }
            }
            j = j + 1;
        }
        if hit {
            assert(folded_eq(a@, b@.subrange(i as int, i + a@.len() as int)));
            assert(folded_inside_at(a@, b@, i as int));
            return true;
        }
        i = i + 1;
    }
    assert(forall|k: int| !folded_inside_at(a@, b@, k));
    false
}

/// Exact (case-sensitive) equality of two string slices.
pub fn str_eq_exec(a: &str, b: &str) -> (r: bool)
    ensures
        r == (a@ == b@),
{
    let alen = a.unicode_len();
    let blen = b.unicode_len();
    if alen != blen {
        return false;
    }
    let mut i: usize = 0;
    while i < alen
        invariant
            i <= alen,
            alen == a@.len(),
            blen == b@.len(),
            alen == blen,
            forall|j: int| 0 <= j < i ==> a@[j] == b@[j],
        decreases alen - i,
    {
        if a.get_char(i) != b.get_char(i) {
            return false;
        }
        i = i + 1;
    }
    proof {
        assert(a@ =~= b@);
    }
    true
}

// ---------------------------------------------------------------------------
// Whitespace trimming over characters.
// ---------------------------------------------------------------------------

/// ASCII whitespace, the set relevant to protocol text.
pub open spec fn ws_char(c: char) -> bool {
    c == ' ' || c == '\t' || c == '\n' || c == '\r'
}

/// `s` with leading ASCII whitespace removed.
pub open spec fn trim_front(s: Seq<char>) -> Seq<char>
    decreases s.len(),
{
    if s.len() > 0 && ws_char(s[0]) {
        trim_front(s.skip(1))
    } else {
        s
    }
}

/// `s` with trailing ASCII whitespace removed.
pub open spec fn trim_back(s: Seq<char>) -> Seq<char>
    decreases s.len(),
{
    if s.len() > 0 && ws_char(s[s.len() - 1]) {
        trim_back(s.take(s.len() - 1))
    } else {
        s
    }
}

/// `s` with surrounding ASCII whitespace removed.
pub open spec fn trimmed(s: Seq<char>) -> Seq<char> {
    trim_back(trim_front(s))
}

fn ws_char_exec(c: char) -> (r: bool)
    ensures
        r == ws_char(c),
{
    c == ' ' || c == '\t' || c == '\n' || c == '\r'
}

proof fn lemma_trim_front_skip(s: Seq<char>, i: int)
    requires
        0 <= i <= s.len(),
        forall|j: int| 0 <= j < i ==> ws_char(s[j]),
    ensures
        trim_front(s) == trim_front(s.skip(i)),
    decreases i,
{
    if i > 0 {
        assert(ws_char(s[0]));
        assert(trim_front(s) == trim_front(s.skip(1)));
        assert(forall|j: int| 0 <= j < i - 1 ==> ws_char(#[trigger] s.skip(1)[j]));
        lemma_trim_front_skip(s.skip(1), i - 1);
        assert(s.skip(1).skip(i - 1) =~= s.skip(i));
    } else {
        assert(s.skip(0) =~= s);
    }
}

proof fn lemma_trim_back_take(s: Seq<char>, i: int)
    requires
        0 <= i <= s.len(),
        forall|j: int| i <= j < s.len() ==> ws_char(s[j]),
    ensures
        trim_back(s) == trim_back(s.take(i)),
    decreases s.len() - i,
{
    if i < s.len() {
        assert(ws_char(s[s.len() - 1]));
        assert(trim_back(s) == trim_back(s.take(s.len() - 1)));
        assert(forall|j: int|
            i <= j < s.len() - 1 ==> ws_char(#[trigger] s.take(s.len() - 1)[j]));
        lemma_trim_back_take(s.take(s.len() - 1), i);
        assert(s.take(s.len() - 1).take(i) =~= s.take(i));
    } else {
        assert(s.take(i) =~= s);
    }
}

/// Removes surrounding ASCII whitespace, as the headless aggregator does to
/// a finished response.
pub fn trim_exec(s: &str) -> (r: String)
    ensures
        r@ == trimmed(s@),
{
    let len = s.unicode_len();
    let mut start: usize = 0;
    while start < len && ws_char_exec(s.get_char(start))
        invariant
            start <= len,
            len == s@.len(),
            forall|j: int| 0 <= j < start ==> ws_char(s@[j]),
        decreases len - start,
    {
        start = start + 1;
    }
    proof {
        lemma_trim_front_skip(s@, start as int);
        if start < len {
            assert(trim_front(s@.skip(start as int)) == s@.skip(start as int));
        } else {
            assert(s@.skip(start as int) =~= Seq::<char>::empty());
        }
    }
    let mut end: usize = len;
    while end > start && ws_char_exec(s.get_char(end - 1))
        invariant
            start <= end <= len,
            len == s@.len(),
            forall|j: int| end <= j < len ==> ws_char(s@[j]),
        decreases end,
    {
        end = end - 1;
    }
    let piece = s.substring_char(start, end);
    proof {
        let f = s@.skip(start as int);
        assert(trim_front(s@) == f);
        lemma_trim_back_take(f, end - start);
        if end > start {
            assert(f.take(end - start)[end - start - 1] == s@[end as int - 1]);
            assert(trim_back(f.take(end - start)) == f.take(end - start));
        } else {
            assert(f.take(end - start) =~= Seq::<char>::empty());
        }
        assert(piece@ =~= f.take(end - start));
    }
    piece.to_owned()
}

// ---------------------------------------------------------------------------
// Concatenation and joining.
// ---------------------------------------------------------------------------

/// Concatenation of a list of character sequences, in order.
pub open spec fn concat_all(parts: Seq<Seq<char>>) -> Seq<char>
    decreases parts.len(),
{
    if parts.len() == 0 {
        Seq::empty()
    } else {
        parts[0] + concat_all(parts.skip(1))
    }
}

/// `parts` joined with `sep` between consecutive elements.
pub open spec fn joined(parts: Seq<Seq<char>>, sep: Seq<char>) -> Seq<char>
    decreases parts.len(),
{
    if parts.len() == 0 {
        Seq::empty()
    } else if parts.len() == 1 {
        parts[0]
    } else {
        parts[0] + sep + joined(parts.skip(1), sep)
    }
}

pub proof fn lemma_concat_all_push(parts: Seq<Seq<char>>, x: Seq<char>)
    ensures
        concat_all(parts.push(x)) == concat_all(parts) + x,
    decreases parts.len(),
{
    if parts.len() == 0 {
        assert(parts.push(x)[0] == x);
        assert(parts.push(x).skip(1) =~= Seq::<Seq<char>>::empty());
        assert(concat_all(Seq::<Seq<char>>::empty()) =~= Seq::<char>::empty());
        assert(concat_all(parts.push(x)) =~= x);
        assert(concat_all(parts) + x =~= x);
    } else {
        assert(parts.push(x).skip(1) =~= parts.skip(1).push(x));
        lemma_concat_all_push(parts.skip(1), x);
        assert(parts[0] + (concat_all(parts.skip(1)) + x) =~= (parts[0] + concat_all(
            parts.skip(1),
        )) + x);
    }
}

pub proof fn lemma_joined_push(parts: Seq<Seq<char>>, sep: Seq<char>, x: Seq<char>)
    requires
        parts.len() > 0,
    ensures
        joined(parts.push(x), sep) == joined(parts, sep) + sep + x,
    decreases parts.len(),
{
    if parts.len() == 1 {
        assert(parts.push(x)[0] == parts[0]);
        assert(parts.push(x).skip(1) =~= seq![x]);
        assert(joined(seq![x], sep) == x);
        assert(joined(parts.push(x), sep) == parts[0] + sep + x);
        assert(joined(parts, sep) == parts[0]);
    } else {
        assert(parts.push(x).skip(1) =~= parts.skip(1).push(x));
        lemma_joined_push(parts.skip(1), sep, x);
        assert(parts[0] + sep + (joined(parts.skip(1), sep) + sep + x) =~= (parts[0] + sep
            + joined(parts.skip(1), sep)) + sep + x);
    }
}

/// Joins the strings of `parts` with `sep`, as the request builders join
/// context blocks and history lines.
pub fn join_exec(parts: &Vec<String>, sep: &str) -> (r: String)
    ensures
        r@ == joined(parts.deep_view(), sep@),
{
    let mut out = String::new();
    let mut i: usize = 0;
    while i < parts.len()
        invariant
            i <= parts.len(),
            out@ == joined(parts.deep_view().take(i as int), sep@),
        decreases parts.len() - i,
    {
        if i > 0 {
            out.append(sep);
        }
        out.append(parts[i].as_str());
        proof {
            let dv = parts.deep_view();
            assert(dv.take(i + 1) =~= dv.take(i as int).push(dv[i as int]));
            assert(dv[i as int] == parts[i as int]@);
            if i > 0 {
                lemma_joined_push(dv.take(i as int), sep@, dv[i as int]);
            } else {
                assert(joined(dv.take(1), sep@) == dv.take(1)[0]);
            }
        }
        i = i + 1;
    }
    proof {
        assert(parts.deep_view().take(parts.len() as int) =~= parts.deep_view());
    }
    out
}

/// The present elements of a list of optional texts, in order.
pub open spec fn flatten_somes(parts: Seq<Option<Seq<char>>>) -> Seq<Seq<char>>
    decreases parts.len(),
{
    if parts.len() == 0 {
        Seq::empty()
    } else {
        let rest = flatten_somes(parts.skip(1));
        match parts[0] {
            Some(t) => seq![t] + rest,
            None => rest,
        }
    }
}

pub proof fn lemma_flatten_somes_push(parts: Seq<Option<Seq<char>>>, x: Option<Seq<char>>)
    ensures
        flatten_somes(parts.push(x)) == flatten_somes(parts) + (match x {
            Some(t) => seq![t],
            None => Seq::empty(),
        }),
    decreases parts.len(),
{
    if parts.len() == 0 {
        assert(parts.push(x)[0] == x);
        assert(parts.push(x).skip(1) =~= Seq::<Option<Seq<char>>>::empty());
        assert(flatten_somes(Seq::<Option<Seq<char>>>::empty()) =~= Seq::<Seq<char>>::empty());
        match x {
            Some(t) => {
                assert(flatten_somes(parts.push(x)) =~= seq![t]);
                assert(flatten_somes(parts) + seq![t] =~= seq![t]);
            },
            None => {
                assert(flatten_somes(parts.push(x)) =~= Seq::<Seq<char>>::empty());
                assert(flatten_somes(parts) + Seq::<Seq<char>>::empty()
                    =~= Seq::<Seq<char>>::empty());
            },
        }
    } else {
        assert(parts.push(x)[0] == parts[0]);
        assert(parts.push(x).skip(1) =~= parts.skip(1).push(x));
        lemma_flatten_somes_push(parts.skip(1), x);
        let tail = match x {
            Some(t) => seq![t],
            None => Seq::<Seq<char>>::empty(),
        };
        match parts[0] {
            Some(h) => {
                assert(seq![h] + (flatten_somes(parts.skip(1)) + tail) =~= (seq![h]
                    + flatten_somes(parts.skip(1))) + tail);
            },
            None => {},
        }
    }
}

/// Keeps the present strings of `parts`, in order, as a provider's batched
/// frame is reduced to its fragments.
pub fn flatten_somes_exec(parts: Vec<Option<String>>) -> (r: Vec<String>)
    ensures
        r.deep_view() == flatten_somes(parts.deep_view()),
{
    let mut r: Vec<String> = Vec::new();
    let mut i: usize = 0;
    while i < parts.len()
        invariant
            i <= parts.len(),
            r.deep_view() =~= flatten_somes(parts.deep_view().take(i as int)),
        decreases parts.len() - i,
    {
        proof {
            assert(parts.deep_view().len() == parts@.len());
            assert(parts.deep_view().take(i + 1) =~= parts.deep_view().take(i as int).push(
                parts.deep_view()[i as int],
            ));
            lemma_flatten_somes_push(parts.deep_view().take(i as int), parts.deep_view()[i as int]);
            assert(parts.deep_view()[i as int] == parts@[i as int].deep_view());
        }
        match &parts[i] {
            Some(t) => {
                let ghost prevv = r@;
                r.push(t.clone());
                proof {
                    assert forall|j: int| 0 <= j < r@.len() implies r.deep_view()[j]
                        == flatten_somes(parts.deep_view().take(i + 1))[j] by {
                        assert(r.deep_view()[j] == r@[j]@);
                        if j < prevv.len() {
                            assert(r@[j] == prevv[j]);
                        }
                    }
                    assert(r.deep_view() =~= flatten_somes(parts.deep_view().take(i + 1)));
                }
            },
            None => {
                proof {
                    assert(r.deep_view() =~= flatten_somes(parts.deep_view().take(i + 1)));
                }
            },
        }
        i = i + 1;
    }
    proof {
        assert(parts.deep_view().take(parts@.len() as int) =~= parts.deep_view());
    }
    r
}

/// Relies on `String::push`: appends exactly the given character.
#[verifier::external_body]
pub(crate) fn push_char(s: &mut String, c: char)
    ensures
        final(s)@ == old(s)@.push(c),
{
    s.push(c);
}

/// Relies on `String::pop`: removes and returns the last character, or
/// leaves an empty string unchanged.
#[verifier::external_body]
pub(crate) fn pop_char(s: &mut String) -> (r: Option<char>)
    ensures
        old(s)@.len() == 0 ==> final(s)@ == old(s)@ && r is None,
        old(s)@.len() > 0 ==> final(s)@ == old(s)@.drop_last() && r == Some(old(s)@.last()),
{
    s.pop()
}

/// Appends one element, tracked at the level of deep views.
pub fn push_dv<T: DeepView>(v: &mut Vec<T>, x: T)
    ensures
        final(v).deep_view() == old(v).deep_view().push(x.deep_view()),
{
    let ghost prevv = v@;
    let ghost xv = x.deep_view();
    v.push(x);
    proof {
        assert(old(v).deep_view().len() == prevv.len());
        let target = old(v).deep_view().push(xv);
        assert forall|j: int| 0 <= j < v@.len() implies v.deep_view()[j] == target[j] by {
            assert(v.deep_view()[j] == v@[j].deep_view());
            if j < prevv.len() {
                assert(v@[j] == prevv[j]);
                assert(old(v).deep_view()[j] == prevv[j].deep_view());
            } else {
                assert(v@[j].deep_view() == xv);
            }
        }
        assert(v.deep_view() =~= target);
    }
}

/// Moves the strings of `src` onto the end of `dst`, keeping order.
pub fn append_strings(dst: &mut Vec<String>, src: Vec<String>)
    ensures
        final(dst).deep_view() == old(dst).deep_view() + src.deep_view(),
{
    let mut i: usize = 0;
    while i < src.len()
        invariant
            i <= src.len(),
            dst.deep_view() =~= old(dst).deep_view() + src.deep_view().take(i as int),
        decreases src.len() - i,
    {
        proof {
            assert(src.deep_view().len() == src@.len());
            assert(old(dst).deep_view().len() == old(dst)@.len());
            assert(dst.deep_view().len() == dst@.len());
            assert(dst@.len() == old(dst)@.len() + i);
        }
        let ghost prevv = dst@;
        dst.push(src[i].clone());
        proof {
            let target = old(dst).deep_view() + src.deep_view().take(i + 1);
            assert forall|j: int| 0 <= j < dst@.len() implies dst.deep_view()[j] == target[j] by {
                assert(dst.deep_view()[j] == dst@[j]@);
                if j < prevv.len() {
                    assert(dst@[j] == prevv[j]);
                    assert(prevv[j]@ == (old(dst).deep_view() + src.deep_view().take(i as int))[j]);
                } else {
                    assert(dst@[j]@ == src@[i as int]@);
                    assert(target[j] == src.deep_view()[i as int]);
                    assert(src.deep_view()[i as int] == src@[i as int].deep_view());
                }
            }
            assert(dst.deep_view() =~= target);
        }
        i = i + 1;
    }
    proof {
        assert(src.deep_view().take(src@.len() as int) =~= src.deep_view());
    }
}

// ---------------------------------------------------------------------------
// Byte-level helpers for the wire decoders.
// ---------------------------------------------------------------------------

/// ASCII whitespace at the byte level.
pub open spec fn ws_byte(b: u8) -> bool {
    b == 32 || b == 9 || b == 10 || b == 13
}

/// Byte sequence `s` with leading ASCII whitespace removed.
pub open spec fn trim_bytes_front(s: Seq<u8>) -> Seq<u8>
    decreases s.len(),
{
    if s.len() > 0 && ws_byte(s[0]) {
        trim_bytes_front(s.skip(1))
    } else {
        s
    }
}

/// Byte sequence `s` with trailing ASCII whitespace removed.
pub open spec fn trim_bytes_back(s: Seq<u8>) -> Seq<u8>
    decreases s.len(),
{
    if s.len() > 0 && ws_byte(s[s.len() - 1]) {
        trim_bytes_back(s.take(s.len() - 1))
    } else {
        s
    }
}

/// Byte sequence `s` with surrounding ASCII whitespace removed.
pub open spec fn trimmed_bytes(s: Seq<u8>) -> Seq<u8> {
    trim_bytes_back(trim_bytes_front(s))
}

fn ws_byte_exec(b: u8) -> (r: bool)
    ensures
        r == ws_byte(b),
{
    b == 32 || b == 9 || b == 10 || b == 13
}

proof fn lemma_trim_bytes_front_skip(s: Seq<u8>, i: int)
    requires
        0 <= i <= s.len(),
        forall|j: int| 0 <= j < i ==> ws_byte(s[j]),
    ensures
        trim_bytes_front(s) == trim_bytes_front(s.skip(i)),
    decreases i,
{
    if i > 0 {
        assert(ws_byte(s[0]));
        assert(trim_bytes_front(s) == trim_bytes_front(s.skip(1)));
        assert(forall|j: int| 0 <= j < i - 1 ==> ws_byte(#[trigger] s.skip(1)[j]));
        lemma_trim_bytes_front_skip(s.skip(1), i - 1);
        assert(s.skip(1).skip(i - 1) =~= s.skip(i));
    } else {
        assert(s.skip(0) =~= s);
    }
}

proof fn lemma_trim_bytes_back_take(s: Seq<u8>, i: int)
    requires
        0 <= i <= s.len(),
        forall|j: int| i <= j < s.len() ==> ws_byte(s[j]),
    ensures
        trim_bytes_back(s) == trim_bytes_back(s.take(i)),
    decreases s.len() - i,
{
    if i < s.len() {
        assert(ws_byte(s[s.len() - 1]));
        assert(trim_bytes_back(s) == trim_bytes_back(s.take(s.len() - 1)));
        assert(forall|j: int|
            i <= j < s.len() - 1 ==> ws_byte(#[trigger] s.take(s.len() - 1)[j]));
        lemma_trim_bytes_back_take(s.take(s.len() - 1), i);
        assert(s.take(s.len() - 1).take(i) =~= s.take(i));
    } else {
        assert(s.take(i) =~= s);
    }
}

/// The surrounding-whitespace-free middle of a byte slice.
pub fn trim_bytes_exec<'a>(s: &'a [u8]) -> (r: &'a [u8])
    ensures
        r@ == trimmed_bytes(s@),
{
    let len = s.len();
    let mut start: usize = 0;
    while start < len && ws_byte_exec(s[start])
        invariant
            start <= len,
            len == s@.len(),
            forall|j: int| 0 <= j < start ==> ws_byte(s@[j]),
        decreases len - start,
    {
        start = start + 1;
    }
    let mut end: usize = len;
    while end > start && ws_byte_exec(s[end - 1])
        invariant
            start <= end <= len,
            len == s@.len(),
            forall|j: int| end <= j < len ==> ws_byte(s@[j]),
        decreases end,
    {
        end = end - 1;
    }
    proof {
        lemma_trim_bytes_front_skip(s@, start as int);
        if start < len {
            assert(trim_bytes_front(s@.skip(start as int)) == s@.skip(start as int));
        } else {
            assert(s@.skip(start as int) =~= Seq::<u8>::empty());
        }
        let f = s@.skip(start as int);
        lemma_trim_bytes_back_take(f, end - start);
        if end > start {
            assert(f.take(end - start)[end - start - 1] == s@[end as int - 1]);
            assert(trim_bytes_back(f.take(end - start)) == f.take(end - start));
        } else {
            assert(f.take(end - start) =~= Seq::<u8>::empty());
        }
        assert(s@.subrange(start as int, end as int) =~= f.take(end - start));
    }
    &s[start..end]
}

} // verus!
