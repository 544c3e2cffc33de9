//! Framing of server-sent-event byte chunks.
//!
//! A streaming response arrives as byte chunks; each chunk is split on
//! newlines, lines carrying the `data: ` prefix are kept, and empty
//! payloads and the `[DONE]` sentinel are dropped.  What remains is the
//! sequence of JSON payloads to decode, pinned exactly by
//! [`spec_extract_payloads`].

use vstd::prelude::*;
use vstd::slice::{slice_subrange, slice_to_vec};

verus! {

/// The newline byte lines are split on.
pub open spec fn nl() -> u8 {
    10
}

/// Position of the first newline in `s`, or `s.len()` if there is none.
pub open spec fn first_nl(s: Seq<u8>) -> int
    decreases s.len(),
{
    if s.len() == 0 {
        0
    } else if s[0] == nl() {
        0
    } else {
        1 + first_nl(s.drop_first())
    }
}

/// Whether a line carries the SSE `data: ` prefix.
pub open spec fn is_data_line(line: Seq<u8>) -> bool {
    &&& line.len() >= 6
    &&& line[0] == 100  // 'd'
    &&& line[1] == 97  // 'a'
    &&& line[2] == 116  // 't'
    &&& line[3] == 97  // 'a'
    &&& line[4] == 58  // ':'
    &&& line[5] == 32  // ' '
}

/// Whether a data payload is the `[DONE]` sentinel.
pub open spec fn is_done_payload(p: Seq<u8>) -> bool {
    &&& p.len() == 6
    &&& p[0] == 91  // '['
    &&& p[1] == 68  // 'D'
    &&& p[2] == 79  // 'O'
    &&& p[3] == 78  // 'N'
    &&& p[4] == 69  // 'E'
    &&& p[5] == 93  // ']'
}

/// The payloads one line contributes: the bytes after `data: ` when the
/// line has that prefix and the payload is neither empty nor `[DONE]`.
pub open spec fn spec_line_payloads(line: Seq<u8>) -> Seq<Seq<u8>> {
    if is_data_line(line) {
        let p = line.skip(6);
        if p.len() > 0 && !is_done_payload(p) {
            seq![p]
        } else {
            Seq::empty()
        }
    } else {
        Seq::empty()
    }
}

/// All JSON payloads of one byte chunk, in arrival order.
pub open spec fn spec_extract_payloads(s: Seq<u8>) -> Seq<Seq<u8>>
    decreases s.len(),
    via spec_extract_payloads_decreases
{
    let i = first_nl(s);
    if i >= s.len() {
        spec_line_payloads(s)
    } else {
        spec_line_payloads(s.take(i)) + spec_extract_payloads(s.skip(i + 1))
    }
}

#[via_fn]
proof fn spec_extract_payloads_decreases(s: Seq<u8>) {
    lemma_first_nl(s);
}

/// `first_nl` is a position in `s`, no newline stands before it, and it
/// points at a newline unless it is `s.len()`.
pub proof fn lemma_first_nl(s: Seq<u8>)
    ensures
        0 <= first_nl(s) <= s.len(),
        forall|m: int| 0 <= m < first_nl(s) ==> s[m] != nl(),
        first_nl(s) < s.len() ==> s[first_nl(s)] == nl(),
    decreases s.len(),
{
    if s.len() == 0 {
    } else if s[0] == nl() {
    } else {
        lemma_first_nl(s.drop_first());
        assert forall|m: int| 0 <= m < first_nl(s) implies s[m] != nl() by {
            if m > 0 {
                assert(s.drop_first()[m - 1] == s[m]);
            }
        }
        if first_nl(s) < s.len() {
            assert(s.drop_first()[first_nl(s.drop_first())] == s[first_nl(s)]);
        }
    }
}

/// Pins `first_nl` to a scanned position: no newline before `j`, and `j`
/// is a newline or the end.
proof fn lemma_first_nl_at(s: Seq<u8>, j: int)
    requires
        0 <= j <= s.len(),
        forall|m: int| 0 <= m < j ==> s[m] != nl(),
        j < s.len() ==> s[j] == nl(),
    ensures
        first_nl(s) == j,
    decreases s.len(),
{
    if s.len() == 0 {
    } else if s[0] == nl() {
        assert(j == 0);
    } else {
        assert(j >= 1);
        assert forall|m: int| 0 <= m < j - 1 implies s.drop_first()[m] != nl() by {
            assert(s.drop_first()[m] == s[m + 1]);
        }
        if j - 1 < s.drop_first().len() {
            assert(s.drop_first()[j - 1] == s[j]);
        }
        lemma_first_nl_at(s.drop_first(), j - 1);
    }
}

/// Whether `line` starts with `data: `.
fn line_is_data(line: &[u8]) -> (r: bool)
    ensures
        r == is_data_line(line@),
{
    line.len() >= 6 && line[0] == 100 && line[1] == 97 && line[2] == 116 && line[3] == 97
        && line[4] == 58 && line[5] == 32
}

/// Whether `p` is the `[DONE]` sentinel.
fn payload_is_done(p: &[u8]) -> (r: bool)
    ensures
        r == is_done_payload(p@),
{
    p.len() == 6 && p[0] == 91 && p[1] == 68 && p[2] == 79 && p[3] == 78 && p[4] == 69 && p[5]
        == 93
}

/// Splits one transport chunk into its JSON data payloads: lines with the
/// `data: ` prefix, minus the prefix, dropping empty payloads and the
/// `[DONE]` sentinel.
pub fn extract_payloads(bytes: &[u8]) -> (out: Vec<Vec<u8>>)
    ensures
        out.deep_view() == spec_extract_payloads(bytes@),
{
    let mut out: Vec<Vec<u8>> = Vec::new();
    let len = bytes.len();
    let mut pos: usize = 0;
    proof {
        assert(bytes@.skip(0) =~= bytes@);
    }
    loop
        invariant
            pos <= len,
            len == bytes@.len(),
            spec_extract_payloads(bytes@) =~~= out.deep_view() + spec_extract_payloads(
                bytes@.skip(pos as int),
            ),
        decreases len - pos,
    {
        // find the end of the current line
        let mut j: usize = pos;
        while j < len && bytes[j] != 10
            invariant
                pos <= j <= len,
                len == bytes@.len(),
                forall|m: int| pos <= m < j ==> bytes@[m] != nl(),
            decreases len - j,
        {
            j = j + 1;
        }
        let ghost rest = bytes@.skip(pos as int);
        proof {
            assert forall|m: int| 0 <= m < j - pos implies rest[m] != nl() by {
                assert(rest[m] == bytes@[pos + m]);
            }
            if j < len {
                assert(rest[j - pos] == bytes@[j as int]);
            }
            lemma_first_nl_at(rest, j - pos);
        }
        let line = slice_subrange(bytes, pos, j);
        proof {
            assert(line@ =~= rest.take(j - pos));
        }
        if line_is_data(line) {
            let payload = slice_subrange(line, 6, line.len());
            proof {
                assert(payload@ =~= line@.skip(6));
            }
            if payload.len() > 0 && !payload_is_done(payload) {
                out.push(slice_to_vec(payload));
            }
        }
        if j == len {
            proof {
                assert(rest.take(j - pos) =~= rest);
                assert(spec_extract_payloads(rest) == spec_line_payloads(rest));
                assert(spec_extract_payloads(bytes@) =~~= out.deep_view());
            }
            return out;
        }
        proof {
            assert(spec_extract_payloads(rest) == spec_line_payloads(rest.take(j - pos))
                + spec_extract_payloads(rest.skip(j - pos + 1)));
            assert(rest.skip(j - pos + 1) =~= bytes@.skip(j + 1));
        }
        pos = j + 1;
    }
}

} // verus!
