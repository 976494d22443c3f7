//! Text as lines: splitting on `'\n'` (dropping trailing `'\r'`), the line
//! ending style of a text, and decimal numbers as text.

use vstd::prelude::*;

use crate::text::{chars_of, string_from_chars, string_push};

verus! {

/// A line with its trailing carriage returns removed.
pub open spec fn trim_cr(t: Seq<char>) -> Seq<char>
    decreases t.len(),
{
    if t.len() > 0 && t.last() == '\r' { trim_cr(t.drop_last()) } else { t }
}

/// The lines of `s[i..]`, given the partial line `cur` before `i`: each
/// `'\n'` ends a line, and the text after the last one is the last line.
pub open spec fn split_from(s: Seq<char>, i: int, cur: Seq<char>) -> Seq<Seq<char>>
    decreases s.len() - i,
{
    if i < 0 || i >= s.len() {
        seq![trim_cr(cur)]
    } else if s[i] == '\n' {
        seq![trim_cr(cur)] + split_from(s, i + 1, Seq::empty())
    } else {
        split_from(s, i + 1, cur.push(s[i]))
    }
}

/// The lines of a text (at least one).
pub open spec fn lines_of(s: Seq<char>) -> Seq<Seq<char>> {
    split_from(s, 0, Seq::empty())
}

/// The plain values of strings.
pub open spec fn strings_view(v: Seq<String>) -> Seq<Seq<char>> {
    v.map_values(|x: String| x@)
}

/// Whether a text holds `"\r\n"`.
pub open spec fn has_crlf(s: Seq<char>) -> bool {
    exists|i: int| 0 <= i < s.len() - 1 && #[trigger] s[i] == '\r' && s[i + 1] == '\n'
}

/// The line ending style of a text: `CRLF` when it holds `"\r\n"`, else `LF`.
pub open spec fn line_ending_of(s: Seq<char>) -> Seq<char> {
    if has_crlf(s) { "CRLF"@ } else { "LF"@ }
}

/// The character of a decimal digit.
pub open spec fn digit(d: nat) -> char {
    ((d + 48) as u8) as char
}

/// The decimal digits of `n`.
pub open spec fn decimal(n: nat) -> Seq<char>
    decreases n,
{
    if n < 10 {
        seq![digit(n)]
    } else {
        decimal(n / 10).push(digit(n % 10))
    }
}

/// The text without its trailing carriage returns, as an index range.
fn trimmed_end(chars: &Vec<char>, from: usize, to: usize) -> (end: usize)
    requires from <= to <= chars@.len(),
    ensures
        from <= end <= to,
        chars@.subrange(from as int, end as int) == trim_cr(chars@.subrange(from as int, to as int)),
    decreases to - from,
{
    if to > from && chars[to - 1] == '\r' {
        proof {
            assert(chars@.subrange(from as int, to as int).drop_last() =~= chars@.subrange(from as int, to - 1));
        }
        trimmed_end(chars, from, to - 1)
    } else {
        to
    }
}

/// Splits a text into lines on `'\n'`, dropping trailing `'\r'`; there is
/// always at least one line.
pub fn split_lines(text: &str) -> (lines: Vec<String>)
    ensures strings_view(lines@) == lines_of(text@), lines@.len() >= 1,
{
    let chars = chars_of(text);
    let ghost s = text@;
    let mut lines: Vec<String> = Vec::new();
    let mut start: usize = 0;
    let mut i: usize = 0;
    proof {
        assert(s.subrange(0, 0) =~= Seq::<char>::empty());
        assert(strings_view(lines@) =~= Seq::<Seq<char>>::empty());
        assert(strings_view(lines@) + split_from(s, 0, s.subrange(0, 0)) =~= lines_of(s));
    }
    while i < chars.len()
        invariant
            chars@ == s,
            start <= i <= s.len(),
            strings_view(lines@) + split_from(s, i as int, s.subrange(start as int, i as int)) == lines_of(s),
        decreases s.len() - i,
    {
        let ghost before = lines@;
        if chars[i] == '\n' {
            let end = trimmed_end(&chars, start, i);
            lines.push(string_from_chars(&chars, start, end));
            proof {
                assert(strings_view(lines@) =~= strings_view(before).push(trim_cr(s.subrange(start as int, i as int))));
                assert(s.subrange(i + 1, i + 1) =~= Seq::<char>::empty());
                assert(split_from(s, i as int, s.subrange(start as int, i as int))
                    == seq![trim_cr(s.subrange(start as int, i as int))] + split_from(s, i + 1, Seq::empty()));
                assert(strings_view(lines@) + split_from(s, i + 1, s.subrange(i + 1, i + 1))
                    =~= strings_view(before) + split_from(s, i as int, s.subrange(start as int, i as int)));
            }
            start = i + 1;
        } else {
            proof { assert(s.subrange(start as int, i + 1) =~= s.subrange(start as int, i as int).push(s[i as int])); }
        }
        i = i + 1;
    }
    let ghost before = lines@;
    let end = trimmed_end(&chars, start, i);
    lines.push(string_from_chars(&chars, start, end));
    proof {
        assert(strings_view(lines@) =~= strings_view(before).push(trim_cr(s.subrange(start as int, i as int))));
        assert(strings_view(lines@) =~= lines_of(s));
    }
    lines
}

/// Whether a text holds `"\r\n"`.
fn contains_crlf(text: &str) -> (b: bool)
    ensures b == has_crlf(text@),
{
    let chars = chars_of(text);
    let mut i: usize = 0;
    while i < chars.len() && i + 1 < chars.len()
        invariant
            chars@ == text@,
            forall|k: int| 0 <= k < i && k < chars@.len() - 1 ==> !(#[trigger] chars@[k] == '\r' && chars@[k + 1] == '\n'),
        decreases chars@.len() - i,
    {
        if chars[i] == '\r' && chars[i + 1] == '\n' {
            return true;
        }
        i = i + 1;
    }
    false
}

/// The line ending style of a text: `"CRLF"` when it holds `"\r\n"`, else
/// `"LF"`.
pub fn detect_line_ending(text: &str) -> (r: String)
    ensures r@ == line_ending_of(text@),
{
    if contains_crlf(text) { "CRLF".to_owned() } else { "LF".to_owned() }
}

/// Appends the decimal digits of `n`.
pub fn push_decimal(dst: &mut String, n: u64)
    ensures final(dst)@ == old(dst)@ + decimal(n as nat),
    decreases n,
{
    if n >= 10 {
        push_decimal(dst, n / 10);
    }
    let d: u8 = (n % 10) as u8 + 48;
    string_push(dst, d as char);
    proof {
        if n < 10 {
            assert(n % 10 == n);
        }
    }
}

} // verus!
