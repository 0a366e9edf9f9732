//! Per-frame helpers shared by the wire decoders: carriage-return
//! stripping, the `data: ` marker of event-stream lines, and the literal
//! terminal sentinel that marks end-of-stream without being JSON.

use vstd::prelude::*;

use crate::text::{trim_bytes_exec, trimmed_bytes};

verus! {

/// A line with one trailing carriage return removed, as line-based network
/// text is conventionally normalized.
pub open spec fn strip_cr(line: Seq<u8>) -> Seq<u8> {
    if line.len() > 0 && line[line.len() - 1] == 13 {
        line.take(line.len() - 1)
    } else {
        line
    }
}

/// Exec mirror of `strip_cr`.
pub fn strip_cr_exec<'a>(line: &'a [u8]) -> (r: &'a [u8])
    ensures
        r@ == strip_cr(line@),
{
    let len = line.len();
    if len > 0 && line[len - 1] == 13 {
        let r = &line[0..len - 1];
        proof {
            assert(r@ =~= strip_cr(line@));
        }
        r
    } else {
        line
    }
}

/// The bytes of the event-stream marker `"data: "`.
pub open spec fn data_marker() -> Seq<u8> {
    seq![100u8, 97u8, 116u8, 97u8, 58u8, 32u8]
}

/// The JSON payload carried by an event-stream line: the bytes after the
/// `"data: "` marker, after carriage-return stripping; lines without the
/// marker carry no payload.
pub open spec fn data_payload(line: Seq<u8>) -> Option<Seq<u8>> {
    let l = strip_cr(line);
    if l.len() >= 6 && l.take(6) == data_marker() {
        Some(l.skip(6))
    } else {
        None
    }
}

/// Exec mirror of `data_payload`.
pub fn data_payload_exec<'a>(line: &'a [u8]) -> (r: Option<&'a [u8]>)
    ensures
        match r {
            Some(p) => data_payload(line@) == Some(p@),
            None => data_payload(line@) is None,
        },
{
    let l = strip_cr_exec(line);
    let len = l.len();
    if len >= 6 && l[0] == 100 && l[1] == 97 && l[2] == 116 && l[3] == 97 && l[4] == 58 && l[5]
        == 32 {
        proof {
            assert(strip_cr(line@).take(6) =~= data_marker());
        }
        let p = &l[6..len];
        proof {
            assert(p@ =~= strip_cr(line@).skip(6));
        }
        Some(p)
    } else {
        proof {
            if strip_cr(line@).len() >= 6 && strip_cr(line@).take(6) == data_marker() {
                assert(strip_cr(line@)[0] == strip_cr(line@).take(6)[0]);
                assert(strip_cr(line@)[1] == strip_cr(line@).take(6)[1]);
                assert(strip_cr(line@)[2] == strip_cr(line@).take(6)[2]);
                assert(strip_cr(line@)[3] == strip_cr(line@).take(6)[3]);
                assert(strip_cr(line@)[4] == strip_cr(line@).take(6)[4]);
                assert(strip_cr(line@)[5] == strip_cr(line@).take(6)[5]);
            }
        }
        None
    }
}

/// The literal terminal sentinel `"[DONE]"`.
pub open spec fn done_sentinel() -> Seq<u8> {
    seq![91u8, 68u8, 79u8, 78u8, 69u8, 93u8]
}

/// Whether a payload is the terminal sentinel, allowing surrounding
/// whitespace; such a payload marks end-of-stream and is never decoded as
/// JSON.
pub open spec fn is_done(payload: Seq<u8>) -> bool {
    trimmed_bytes(payload) == done_sentinel()
}

/// Exec mirror of `is_done`.
pub fn is_done_exec(payload: &[u8]) -> (r: bool)
    ensures
        r == is_done(payload@),
{
    let t = trim_bytes_exec(payload);
    let r = t.len() == 6 && t[0] == 91 && t[1] == 68 && t[2] == 79 && t[3] == 78 && t[4] == 69
        && t[5] == 93;
    proof {
        if r {
            assert(t@ =~= done_sentinel());
        } else {
            if trimmed_bytes(payload@) == done_sentinel() {
                assert(t@.len() == 6);
                assert(t@[0] == 91 && t@[1] == 68 && t@[2] == 79 && t@[3] == 78 && t@[4] == 69
                    && t@[5] == 93);
            }
        }
    }
    r
}

} // verus!
