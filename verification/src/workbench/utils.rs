//! Path and text helpers of the workbench. Paths are `/`-separated text.

use vstd::prelude::*;

use crate::lines::{decimal, detect_line_ending, line_ending_of, lines_of, push_decimal, split_lines, strings_view};
use crate::text::{chars_of, string_push};

verus! {

/// Whether a path component counts: not empty and not `"."`.
pub open spec fn is_normal(c: Seq<char>) -> bool {
    c.len() > 0 && c != seq!['.']
}

/// The last counting component of `s[i..]`, given the component `cur` being
/// read and the last counting one before it.
pub open spec fn last_component_from(s: Seq<char>, i: int, cur: Seq<char>, last: Option<Seq<char>>) -> Option<Seq<char>>
    decreases s.len() - i,
{
    if i < 0 || i >= s.len() {
        if is_normal(cur) { Some(cur) } else { last }
    } else if s[i] == '/' {
        last_component_from(s, i + 1, Seq::empty(), if is_normal(cur) { Some(cur) } else { last })
    } else {
        last_component_from(s, i + 1, cur.push(s[i]), last)
    }
}

/// The file name of a path: its last component, ignoring empty and `"."`
/// components; none when there is no component or the last one is `".."`.
pub open spec fn file_name_of(s: Seq<char>) -> Option<Seq<char>> {
    match last_component_from(s, 0, Seq::empty(), None) {
        Some(c) => if c == seq!['.', '.'] { None } else { Some(c) },
        None => None,
    }
}

/// The file name of a path, if any.
pub(crate) fn file_name(path: &str) -> (r: Option<String>)
    ensures opt_string_view(r) == file_name_of(path@),
{
    let chars = chars_of(path);
    let ghost s = path@;
    let mut cur = String::new();
    let mut last: Option<String> = None;
    let mut i: usize = 0;
    while i < chars.len()
        invariant
            chars@ == s,
            i <= s.len(),
            last_component_from(s, 0, Seq::empty(), None) == last_component_from(s, i as int, cur@, opt_string_view(last)),
        decreases s.len() - i,
    {
        if chars[i] == '/' {
            if is_normal_exec(&cur) {
                last = Some(cur);
            }
            cur = String::new();
        } else {
            string_push(&mut cur, chars[i]);
        }
        i = i + 1;
    }
    if is_normal_exec(&cur) {
        last = Some(cur);
    }
    match last {
        Some(c) => if is_dot_dot(&c) { None } else { Some(c) },
        None => None,
    }
}

/// The plain value of an optional string.
pub open spec fn opt_string_view(o: Option<String>) -> Option<Seq<char>> {
    match o {
        Some(s) => Some(s@),
        None => None,
    }
}

fn is_normal_exec(c: &String) -> (b: bool)
    ensures b == is_normal(c@),
{
    let chars = chars_of(c.as_str());
    if chars.len() == 0 {
        return false;
    }
    if chars.len() == 1 && chars[0] == '.' {
        proof { assert(c@ =~= seq!['.']); }
        return false;
    }
    proof { if c@ == seq!['.'] { assert(c@.len() == 1); } }
    true
}

fn is_dot_dot(c: &String) -> (b: bool)
    ensures b == (c@ == seq!['.', '.']),
{
    let chars = chars_of(c.as_str());
    let r = chars.len() == 2 && chars[0] == '.' && chars[1] == '.';
    proof {
        if r { assert(c@ =~= seq!['.', '.']); }
        if c@ == seq!['.', '.'] { assert(chars@.len() == 2); }
    }
    r
}

/// The file name of a relative path (for tab titles); the path itself when
/// it has none.
pub fn file_name_from_path(relative_path: &str) -> (r: String)
    ensures r@ == (match file_name_of(relative_path@) { Some(n) => n, None => relative_path@ }),
{
    match file_name(relative_path) {
        Some(n) => n,
        None => relative_path.to_owned(),
    }
}

/// The project name of a workspace root: its file name, or `"workspace"`
/// when it has none.
pub fn project_name_from_root(workspace_root: &str) -> (r: String)
    ensures r@ == (match file_name_of(workspace_root@) { Some(n) => n, None => "workspace"@ }),
{
    match file_name(workspace_root) {
        Some(n) => n,
        None => "workspace".to_owned(),
    }
}

/// `relative_path` joined onto `workspace_root`: an absolute path (starting
/// with `/`) replaces the root; an empty root adds nothing; otherwise one
/// `/` separates the two.
pub open spec fn joined_path(root: Seq<char>, rel: Seq<char>) -> Seq<char> {
    if rel.len() > 0 && rel[0] == '/' {
        rel
    } else if root.len() == 0 {
        rel
    } else if root.last() == '/' {
        root + rel
    } else {
        root + seq!['/'] + rel
    }
}

fn push_all(dst: &mut String, chars: &Vec<char>)
    ensures final(dst)@ == old(dst)@ + chars@,
{
    let ghost start = dst@;
    let mut i: usize = 0;
    while i < chars.len()
        invariant i <= chars@.len(), dst@ == start + chars@.take(i as int),
        decreases chars@.len() - i,
    {
        string_push(dst, chars[i]);
        proof { assert(chars@.take(i + 1) =~= chars@.take(i as int).push(chars@[i as int])); }
        i = i + 1;
    }
    proof { assert(chars@.take(chars@.len() as int) =~= chars@); }
}

/// The path of a workspace file.
pub fn workspace_file_absolute_path(workspace_root: &str, relative_path: &str) -> (r: String)
    ensures r@ == joined_path(workspace_root@, relative_path@),
{
    let root = chars_of(workspace_root);
    let rel = chars_of(relative_path);
    let mut out = String::new();
    if rel.len() > 0 && rel[0] == '/' {
        push_all(&mut out, &rel);
    } else if root.len() == 0 {
        push_all(&mut out, &rel);
    } else if root[root.len() - 1] == '/' {
        push_all(&mut out, &root);
        push_all(&mut out, &rel);
    } else {
        push_all(&mut out, &root);
        string_push(&mut out, '/');
        push_all(&mut out, &rel);
    }
    proof { assert(out@ =~= joined_path(workspace_root@, relative_path@)); }
    out
}

/// The caret text of a preview: the number of lines, then `:1`.
pub open spec fn preview_cursor(line_count: nat) -> Seq<char> {
    decimal(if line_count < 1 { 1 } else { line_count }) + ":1"@
}

/// The preview of a text for a tab: its lines, its line ending style, and
/// the caret text placed on the last line.
pub fn buffer_preview(text: &str) -> (r: (Vec<String>, String, String))
    ensures
        strings_view(r.0@) == lines_of(text@),
        r.1@ == line_ending_of(text@),
        r.2@ == preview_cursor(lines_of(text@).len()),
{
    let lines = split_lines(text);
    let ending = detect_line_ending(text);
    let count = lines.len();
    let shown: u64 = if count < 1 { 1 } else { count as u64 };
    let mut cursor = String::new();
    push_decimal(&mut cursor, shown);
    let ghost mid = cursor@;
    let suffix = chars_of(":1");
    push_all(&mut cursor, &suffix);
    proof { assert(cursor@ =~= preview_cursor(lines_of(text@).len())); }
    (lines, ending, cursor)
}

} // verus!
