//! Find / replace support: building the search pattern, and the calls into
//! the `regex` crate that find matches and expand replacement templates.

use vstd::prelude::*;

use crate::command::invocation::FindReplaceRequest;
use crate::text::string_push;

verus! {

/// Characters with a special meaning in regular expressions.
pub open spec fn is_meta_character(c: char) -> bool {
    c == '\\' || c == '.' || c == '+' || c == '*' || c == '?' || c == '(' || c == ')'
        || c == '|' || c == '[' || c == ']' || c == '{' || c == '}' || c == '^' || c == '$'
        || c == '#' || c == '&' || c == '-' || c == '~'
}

/// `s` with a backslash in front of every meta character, so that it matches
/// literally.
pub open spec fn escape_spec(s: Seq<char>) -> Seq<char>
    decreases s.len(),
{
    if s.len() == 0 {
        s
    } else {
        let rest = escape_spec(s.drop_last());
        if is_meta_character(s.last()) { rest.push('\\').push(s.last()) } else { rest.push(s.last()) }
    }
}

/// Escapes every meta character of `text` (what `regex::escape` computes).
pub fn escape(text: &str) -> (r: String)
    ensures r@ == escape_spec(text@),
{
    let chars = crate::text::chars_of(text);
    let mut r = String::new();
    let mut i: usize = 0;
    proof { assert(chars@.take(0) =~= Seq::<char>::empty()); }
    while i < chars.len()
        invariant
            i <= chars@.len(),
            r@ == escape_spec(chars@.take(i as int)),
        decreases chars@.len() - i,
    {
        let c = chars[i];
        proof { assert(chars@.take(i + 1).drop_last() =~= chars@.take(i as int)); }
        if c == '\\' || c == '.' || c == '+' || c == '*' || c == '?' || c == '(' || c == ')'
            || c == '|' || c == '[' || c == ']' || c == '{' || c == '}' || c == '^' || c == '$'
            || c == '#' || c == '&' || c == '-' || c == '~' {
            string_push(&mut r, '\\');
        }
        string_push(&mut r, c);
        i = i + 1;
    }
    proof { assert(chars@.take(chars@.len() as int) =~= chars@); }
    r
}

/// The pattern a find request searches for: the query itself in regex
/// mode, else the escaped query; wrapped in word boundaries for whole words.
pub open spec fn find_pattern_spec(query: Seq<char>, use_regex: bool, whole_word: bool) -> Seq<char> {
    let p = if use_regex { query } else { escape_spec(query) };
    if whole_word { seq!['\\', 'b', '(', '?', ':'] + p + seq![')', '\\', 'b'] } else { p }
}

fn push_str(dst: &mut String, src: &str)
    ensures final(dst)@ == old(dst)@ + src@,
{
    let chars = crate::text::chars_of(src);
    let mut i: usize = 0;
    let ghost start = dst@;
    while i < chars.len()
        invariant
            i <= chars@.len(),
            dst@ == start + chars@.take(i as int),
        decreases chars@.len() - i,
    {
        string_push(dst, chars[i]);
        proof { assert(chars@.take(i + 1) =~= chars@.take(i as int).push(chars@[i as int])); }
        i = i + 1;
    }
    proof { assert(chars@.take(chars@.len() as int) =~= chars@); }
}

/// Builds the search pattern of a request.
pub fn find_pattern(request: &FindReplaceRequest) -> (r: String)
    ensures r@ == find_pattern_spec(request.query@, request.use_regex, request.whole_word),
{
    let base = if request.use_regex { request.query.clone() } else { escape(request.query.as_str()) };
    if !request.whole_word {
        return base;
    }
    let mut r = String::new();
    push_str(&mut r, "\\b(?:");
    push_str(&mut r, base.as_str());
    push_str(&mut r, ")\\b");
    proof {
        reveal_strlit("\\b(?:");
        reveal_strlit(")\\b");
        assert(r@ =~= find_pattern_spec(request.query@, request.use_regex, request.whole_word));
    }
    r
}

/// What `regex` finds: `None` when the pattern (compiled case-insensitively
/// or not, in multi-line and Unicode mode) does not compile, else the byte
/// spans `(start, end)` of the successive non-overlapping matches in `text`.
pub uninterp spec fn regex_find_spans(pattern: Seq<char>, case_insensitive: bool, text: Seq<char>) -> Option<Seq<(usize, usize)>>;

/// What `regex` expands: `None` when the pattern does not compile, else for
/// each successive match its byte span and the replacement template with
/// its capture references (`$1`, `$name`, ...) substituted.
pub uninterp spec fn regex_expand_spans(pattern: Seq<char>, case_insensitive: bool, text: Seq<char>, template: Seq<char>) -> Option<Seq<(usize, usize, Seq<char>)>>;

/// Calls `regex::RegexBuilder` (case-insensitive as asked, multi-line and
/// Unicode on) and then `Regex::find_iter`; the result is the named value
/// `regex_find_spans` of the arguments, nothing more is claimed.
#[verifier::external_body]
pub(crate) fn regex_find_all(pattern: &str, case_insensitive: bool, text: &str) -> (r: Option<Vec<(usize, usize)>>)
    ensures
        r is None <==> regex_find_spans(pattern@, case_insensitive, text@) is None,
        r matches Some(v) ==> v@ == regex_find_spans(pattern@, case_insensitive, text@)->0,
{
    let re = regex::RegexBuilder::new(pattern)
        .case_insensitive(case_insensitive)
        .multi_line(true)
        .unicode(true)
        .build()
        .ok()?;
    Some(re.find_iter(text).map(|m| (m.start(), m.end())).collect())
}

/// Calls `regex::RegexBuilder` (as `regex_find_all` does), then
/// `Regex::captures_iter` and `Captures::expand` with the template on each
/// match; the result is the named value `regex_expand_spans` of the
/// arguments, nothing more is claimed.
#[verifier::external_body]
pub(crate) fn regex_expand_all(pattern: &str, case_insensitive: bool, text: &str, template: &str) -> (r: Option<Vec<(usize, usize, String)>>)
    ensures
        r is None <==> regex_expand_spans(pattern@, case_insensitive, text@, template@) is None,
        r matches Some(v) ==> {
            let e = regex_expand_spans(pattern@, case_insensitive, text@, template@)->0;
            &&& v@.len() == e.len()
            &&& forall|i: int| 0 <= i < e.len() ==> (#[trigger] v@[i]).0 == e[i].0 && v@[i].1 == e[i].1 && v@[i].2@ == e[i].2
        },
{
    let re = regex::RegexBuilder::new(pattern)
        .case_insensitive(case_insensitive)
        .multi_line(true)
        .unicode(true)
        .build()
        .ok()?;
    Some(re.captures_iter(text).map(|caps| {
        let m = caps.get_match();
        let mut out = String::new();
        caps.expand(template, &mut out);
        (m.start(), m.end(), out)
    }).collect())
}

} // verus!
