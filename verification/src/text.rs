//! Character-level text building.
//!
//! Rendered output (JSON bodies, prompts, error messages) is assembled as a
//! `Vec<char>` whose view is compared against spec-level sequences, then
//! turned into a `String` once at the end.  This keeps every formatting
//! decision inside verified code.

use vstd::prelude::*;
use vstd::string::StrSliceExecFns;

verus! {

/// The decimal digit `d` as a character.
pub open spec fn digit_char(d: nat) -> char {
    if d == 0 {
        '0'
    } else if d == 1 {
        '1'
    } else if d == 2 {
        '2'
    } else if d == 3 {
        '3'
    } else if d == 4 {
        '4'
    } else if d == 5 {
        '5'
    } else if d == 6 {
        '6'
    } else if d == 7 {
        '7'
    } else if d == 8 {
        '8'
    } else {
        '9'
    }
}

/// The usual decimal rendering of `n`, most significant digit first, with no
/// leading zeros (and `0` itself rendered as "0").
pub open spec fn spec_u32_digits(n: nat) -> Seq<char>
    decreases n,
{
    if n < 10 {
        seq![digit_char(n)]
    } else {
        spec_u32_digits(n / 10).push(digit_char(n % 10))
    }
}

/// The decimal rendering of a value held in thousandths: the whole part,
/// a dot, and exactly three fraction digits (`100` renders as "0.100").
pub open spec fn spec_milli_digits(m: nat) -> Seq<char> {
    spec_u32_digits(m / 1000) + seq![
        '.',
        digit_char((m % 1000) / 100),
        digit_char((m % 100) / 10),
        digit_char(m % 10),
    ]
}

/// How one character appears inside a JSON string literal: quote, backslash
/// and the common control characters get two-character escapes, any other
/// control character a `\u00XX` escape, and everything else stands as
/// itself.
pub open spec fn esc_char(c: char) -> Seq<char> {
    if c == '"' {
        seq!['\\', '"']
    } else if c == '\\' {
        seq!['\\', '\\']
    } else if c == '\n' {
        seq!['\\', 'n']
    } else if c == '\r' {
        seq!['\\', 'r']
    } else if c == '\t' {
        seq!['\\', 't']
    } else if (c as nat) < 0x20 {
        seq!['\\', 'u', '0', '0', hex_char((c as nat) / 16), hex_char((c as nat) % 16)]
    } else {
        seq![c]
    }
}

/// The hexadecimal digit `d` (below 16) as a lower-case character.
pub open spec fn hex_char(d: nat) -> char {
    if d < 10 {
        digit_char(d)
    } else if d == 10 {
        'a'
    } else if d == 11 {
        'b'
    } else if d == 12 {
        'c'
    } else if d == 13 {
        'd'
    } else if d == 14 {
        'e'
    } else {
        'f'
    }
}

/// The JSON string-literal escaping of a whole character sequence.
pub open spec fn spec_escaped(s: Seq<char>) -> Seq<char>
    decreases s.len(),
{
    if s.len() == 0 {
        Seq::empty()
    } else {
        spec_escaped(s.drop_last()) + esc_char(s.last())
    }
}

/// Sequences joined by a single newline, as `Vec::join("\n")` would.
pub open spec fn spec_join_newline(parts: Seq<Seq<char>>) -> Seq<char>
    decreases parts.len(),
{
    if parts.len() == 0 {
        Seq::empty()
    } else if parts.len() == 1 {
        parts[0]
    } else {
        spec_join_newline(parts.drop_last()) + seq!['\n'] + parts.last()
    }
}

/// Appends every character of `s` to `out`.
pub fn append_str(out: &mut Vec<char>, s: &str)
    ensures
        final(out)@ == old(out)@ + s@,
{
    let n = s.unicode_len();
    let mut i: usize = 0;
    while i < n
        invariant
            n == s@.len(),
            i <= n,
            out@ == old(out)@ + s@.subrange(0, i as int),
        decreases n - i,
    {
        out.push(s.get_char(i));
        proof {
            assert(s@.subrange(0, i + 1) =~= s@.subrange(0, i as int).push(s@[i as int]));
            assert(out@ =~= old(out)@ + s@.subrange(0, i + 1));
        }
        i = i + 1;
    }
    proof {
        assert(s@.subrange(0, n as int) =~= s@);
    }
}

/// The decimal digit `d` (below 10) as a character.
pub fn digit_to_char(d: u32) -> (c: char)
    requires
        d < 10,
    ensures
        c == digit_char(d as nat),
{
    match d {
        0 => '0',
        1 => '1',
        2 => '2',
        3 => '3',
        4 => '4',
        5 => '5',
        6 => '6',
        7 => '7',
        8 => '8',
        _ => '9',
    }
}

/// Appends the decimal rendering of `n` to `out`.
pub fn append_u32(out: &mut Vec<char>, n: u32)
    ensures
        final(out)@ == old(out)@ + spec_u32_digits(n as nat),
    decreases n,
{
    if n >= 10 {
        append_u32(out, n / 10);
    }
    out.push(digit_to_char(n % 10));
    proof {
        if n < 10 {
            assert(old(out)@ + spec_u32_digits(n as nat) =~= old(out)@.push(
                digit_char(n as nat),
            ));
        } else {
            assert(old(out)@ + spec_u32_digits(n as nat) =~= (old(out)@ + spec_u32_digits(
                (n / 10) as nat,
            )).push(digit_char((n % 10) as nat)));
        }
    }
}

/// Appends the thousandths rendering of `m` (whole part, dot, three
/// fraction digits) to `out`.
pub fn append_milli(out: &mut Vec<char>, m: u32)
    ensures
        final(out)@ == old(out)@ + spec_milli_digits(m as nat),
{
    append_u32(out, m / 1000);
    out.push('.');
    out.push(digit_to_char((m % 1000) / 100));
    out.push(digit_to_char((m % 100) / 10));
    out.push(digit_to_char(m % 10));
    proof {
        assert(final(out)@ =~= old(out)@ + spec_milli_digits(m as nat));
    }
}

/// The hexadecimal digit `d` (below 16) as a character.
fn hex_to_char(d: u32) -> (c: char)
    requires
        d < 16,
    ensures
        c == hex_char(d as nat),
{
    if d < 10 {
        digit_to_char(d)
    } else {
        match d {
            10 => 'a',
            11 => 'b',
            12 => 'c',
            13 => 'd',
            14 => 'e',
            _ => 'f',
        }
    }
}

/// Appends the JSON escape of the single character `c` to `out`.
pub fn append_escaped_char(out: &mut Vec<char>, c: char)
    ensures
        final(out)@ == old(out)@ + esc_char(c),
{
    if c == '"' {
        out.push('\\');
        out.push('"');
    } else if c == '\\' {
        out.push('\\');
        out.push('\\');
    } else if c == '\n' {
        out.push('\\');
        out.push('n');
    } else if c == '\r' {
        out.push('\\');
        out.push('r');
    } else if c == '\t' {
        out.push('\\');
        out.push('t');
    } else if (c as u32) < 0x20 {
        out.push('\\');
        out.push('u');
        out.push('0');
        out.push('0');
        out.push(hex_to_char((c as u32) / 16));
        out.push(hex_to_char((c as u32) % 16));
    } else {
        out.push(c);
    }
    proof {
        assert(final(out)@ =~= old(out)@ + esc_char(c));
    }
}

/// Appends the JSON string-literal escaping of `s` to `out` (without the
/// surrounding quotes).
pub fn append_escaped(out: &mut Vec<char>, s: &str)
    ensures
        final(out)@ == old(out)@ + spec_escaped(s@),
{
    let n = s.unicode_len();
    let mut i: usize = 0;
    while i < n
        invariant
            n == s@.len(),
            i <= n,
            out@ == old(out)@ + spec_escaped(s@.subrange(0, i as int)),
        decreases n - i,
    {
        append_escaped_char(out, s.get_char(i));
        proof {
            let pre = s@.subrange(0, i as int);
            let post = s@.subrange(0, i + 1);
            assert(post.drop_last() =~= pre);
            assert(post.last() == s@[i as int]);
            assert(out@ =~= old(out)@ + spec_escaped(post));
        }
        i = i + 1;
    }
    proof {
        assert(s@.subrange(0, n as int) =~= s@);
    }
}

/// Appends `"` + escape of `s` + `"` to `out`: `s` as a JSON string
/// literal.
pub fn append_json_string(out: &mut Vec<char>, s: &str)
    ensures
        final(out)@ == old(out)@ + spec_json_string(s@),
{
    out.push('"');
    append_escaped(out, s);
    out.push('"');
    proof {
        assert(final(out)@ =~= old(out)@ + spec_json_string(s@));
    }
}

/// `s` as a JSON string literal: quoted and escaped.
pub open spec fn spec_json_string(s: Seq<char>) -> Seq<char> {
    seq!['"'] + spec_escaped(s) + seq!['"']
}

/// Appends the elements of `parts` joined by single newlines, as
/// `join("\n")` would produce.
pub fn append_joined_newline(out: &mut Vec<char>, parts: &Vec<String>)
    ensures
        final(out)@ == old(out)@ + spec_join_newline(parts.deep_view()),
{
    let n = parts.len();
    let mut i: usize = 0;
    while i < n
        invariant
            n == parts.len(),
            i <= n,
            out@ == old(out)@ + spec_join_newline(parts.deep_view().subrange(0, i as int)),
        decreases n - i,
    {
        if i > 0 {
            out.push('\n');
        }
        append_str(out, parts[i].as_str());
        proof {
            let whole = parts.deep_view();
            let pre = whole.subrange(0, i as int);
            let post = whole.subrange(0, i + 1);
            assert(post.drop_last() =~= pre);
            assert(post.last() == whole[i as int]);
            if i == 0 {
                assert(spec_join_newline(post) == whole[0]);
            } else {
                assert(spec_join_newline(post) == spec_join_newline(pre) + seq!['\n']
                    + whole[i as int]);
            }
            assert(out@ =~= old(out)@ + spec_join_newline(post));
        }
        i = i + 1;
    }
    proof {
        assert(parts.deep_view().subrange(0, n as int) =~= parts.deep_view());
    }
}

/// Compares two string slices character by character.
pub fn str_eq_str(a: &str, b: &str) -> (r: bool)
    ensures
        r == (a@ == b@),
{
    let na = a.unicode_len();
    let nb = b.unicode_len();
    if na != nb {
        return false;
    }
    let mut i: usize = 0;
    while i < na
        invariant
            na == a@.len(),
            na == b@.len(),
            i <= na,
            forall|j: int| 0 <= j < i ==> a@[j] == b@[j],
        decreases na - i,
    {
        if a.get_char(i) != b.get_char(i) {
            return false;
        }
        i = i + 1;
    }
    proof {
        assert(a@ =~= b@);
    }
    true
}

/// Relies on `String: FromIterator<char>`: collecting characters builds the
/// string holding exactly those characters in order.
#[verifier::external_body]
pub(crate) fn chars_to_string(v: &Vec<char>) -> (r: String)
    ensures
        r@ == v@,
{
    v.iter().collect()
}

} // verus!
