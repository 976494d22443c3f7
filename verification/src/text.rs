//! The text model: a sequence of Unicode scalar values addressed both by
//! UTF-8 byte offsets and by logical `(row, col)` positions, where rows are
//! separated by `'\n'` and columns count scalar values.

use vstd::prelude::*;
use vstd::utf8::{encode_scalar, encode_utf8};

use crate::position::Position;
use crate::selection::Selection;

verus! {

// ---------------------------------------------------------------------------
// Byte measure of character sequences
// ---------------------------------------------------------------------------

/// The number of bytes of the UTF-8 encoding of `c`.
pub open spec fn utf8_width(c: char) -> nat {
    encode_scalar(c as u32).len()
}

/// The number of bytes of the UTF-8 encoding of `s`.
pub open spec fn byte_len(s: Seq<char>) -> nat {
    encode_utf8(s).len()
}

/// The byte offset at which the character with index `i` starts.
pub open spec fn byte_offset(s: Seq<char>, i: int) -> nat {
    byte_len(s.take(i))
}

/// The UTF-8 encoding distributes over concatenation.
pub proof fn lemma_encode_concat(a: Seq<char>, b: Seq<char>)
    ensures encode_utf8(a + b) =~= encode_utf8(a) + encode_utf8(b),
    decreases a.len(),
{
    if a.len() == 0 {
        assert(a + b =~= b);
    } else {
        assert((a + b).drop_first() =~= a.drop_first() + b);
        lemma_encode_concat(a.drop_first(), b);
    }
}

/// Byte length is additive.
pub proof fn lemma_byte_len_concat(a: Seq<char>, b: Seq<char>)
    ensures byte_len(a + b) == byte_len(a) + byte_len(b),
{
    lemma_encode_concat(a, b);
}

/// The byte length of one character is its UTF-8 width.
pub proof fn lemma_byte_len_single(c: char)
    ensures byte_len(seq![c]) == utf8_width(c),
{
    assert(seq![c].drop_first() =~= Seq::<char>::empty());
    assert(encode_utf8(Seq::<char>::empty()) =~= Seq::<u8>::empty());
    assert(encode_utf8(seq![c]) =~= encode_scalar(c as u32) + encode_utf8(Seq::<char>::empty()));
}

/// Every UTF-8 width is between one and four bytes, by code point range.
pub proof fn lemma_utf8_width(c: char)
    ensures
        1 <= utf8_width(c) <= 4,
        (c as u32) < 0x80 ==> utf8_width(c) == 1,
        0x80 <= (c as u32) < 0x800 ==> utf8_width(c) == 2,
        0x800 <= (c as u32) < 0x10000 ==> utf8_width(c) == 3,
        0x10000 <= (c as u32) ==> utf8_width(c) == 4,
{
    vstd::utf8::char_is_scalar(c);
}

/// Extending a prefix by one character adds that character's width.
pub proof fn lemma_byte_offset_step(s: Seq<char>, i: int)
    requires 0 <= i < s.len(),
    ensures byte_offset(s, i + 1) == byte_offset(s, i) + utf8_width(s[i]),
{
    assert(s.take(i + 1) =~= s.take(i) + seq![s[i]]);
    lemma_byte_len_concat(s.take(i), seq![s[i]]);
    lemma_byte_len_single(s[i]);
}

/// Byte offsets grow strictly with the character index.
pub proof fn lemma_byte_offset_strict_mono(s: Seq<char>, i: int, j: int)
    requires 0 <= i < j <= s.len(),
    ensures byte_offset(s, i) < byte_offset(s, j),
    decreases j - i,
{
    lemma_byte_offset_step(s, j - 1);
    lemma_utf8_width(s[j - 1]);
    if i < j - 1 {
        lemma_byte_offset_strict_mono(s, i, j - 1);
    }
}

/// Byte offsets are monotone in the character index.
pub proof fn lemma_byte_offset_mono(s: Seq<char>, i: int, j: int)
    requires 0 <= i <= j <= s.len(),
    ensures byte_offset(s, i) <= byte_offset(s, j),
{
    if i < j {
        lemma_byte_offset_strict_mono(s, i, j);
    }
}

/// The byte offset of the end of `s` is its byte length.
pub proof fn lemma_byte_offset_full(s: Seq<char>)
    ensures byte_offset(s, s.len() as int) == byte_len(s),
{
    assert(s.take(s.len() as int) =~= s);
}

/// Byte offsets inside a prefix agree with those in the whole sequence.
pub proof fn lemma_byte_offset_prefix(s: Seq<char>, n: int, i: int)
    requires 0 <= i <= n <= s.len(),
    ensures byte_offset(s.take(n), i) == byte_offset(s, i),
{
    assert(s.take(n).take(i) =~= s.take(i));
}

/// The byte length of a character slice is the difference of its offsets.
pub proof fn lemma_byte_len_subrange(s: Seq<char>, i: int, j: int)
    requires 0 <= i <= j <= s.len(),
    ensures byte_len(s.subrange(i, j)) == byte_offset(s, j) - byte_offset(s, i),
{
    assert(s.take(j) =~= s.take(i) + s.subrange(i, j));
    lemma_byte_len_concat(s.take(i), s.subrange(i, j));
}

/// The largest character index whose start offset is at most `off`: the
/// character boundary at or before byte offset `off`.
pub open spec fn char_floor(s: Seq<char>, off: int) -> nat
    decreases s.len(),
{
    if s.len() == 0 {
        0
    } else if byte_len(s) <= off {
        s.len()
    } else {
        char_floor(s.drop_last(), off)
    }
}

/// `off` is the start offset of some character index (or the end).
pub open spec fn is_char_boundary(s: Seq<char>, off: int) -> bool {
    off >= 0 && byte_offset(s, char_floor(s, off) as int) == off
}

/// The floor index is the unique index whose offset is at most `off` while the
/// next index's offset exceeds it.
pub proof fn lemma_char_floor(s: Seq<char>, off: int)
    requires off >= 0,
    ensures
        char_floor(s, off) <= s.len(),
        byte_offset(s, char_floor(s, off) as int) <= off,
        char_floor(s, off) < s.len() ==> byte_offset(s, char_floor(s, off) as int + 1) > off,
    decreases s.len(),
{
    if s.len() == 0 {
        assert(s.take(0) =~= Seq::<char>::empty());
    } else if byte_len(s) <= off {
        lemma_byte_offset_full(s);
    } else {
        let t = s.drop_last();
        lemma_char_floor(t, off);
        let f = char_floor(t, off) as int;
        assert(t =~= s.take(s.len() - 1));
        lemma_byte_offset_prefix(s, s.len() - 1, f);
        if f < t.len() {
            lemma_byte_offset_prefix(s, s.len() - 1, f + 1);
        } else {
            lemma_byte_offset_full(s);
        }
    }
}

/// Any index that sits at or before `off` with its successor past `off` is
/// the floor index.
pub proof fn lemma_char_floor_unique(s: Seq<char>, off: int, i: int)
    requires
        off >= 0,
        0 <= i <= s.len(),
        byte_offset(s, i) <= off,
        i < s.len() ==> byte_offset(s, i + 1) > off,
    ensures char_floor(s, off) == i,
{
    lemma_char_floor(s, off);
    let f = char_floor(s, off) as int;
    if f < i {
        lemma_byte_offset_mono(s, f + 1, i);
    } else if i < f {
        lemma_byte_offset_mono(s, i + 1, f);
    }
}

/// The floor of the start offset of an index is that index.
pub proof fn lemma_char_floor_of_offset(s: Seq<char>, i: int)
    requires 0 <= i <= s.len(),
    ensures char_floor(s, byte_offset(s, i) as int) == i,
{
    if i < s.len() {
        lemma_byte_offset_strict_mono(s, i, i + 1);
    }
    lemma_char_floor_unique(s, byte_offset(s, i) as int, i);
}

// ---------------------------------------------------------------------------
// Rows and columns
// ---------------------------------------------------------------------------

/// The `(row, col)` coordinate of the character index `i`: rows are separated
/// by `'\n'`, columns count characters since the start of the row.
pub open spec fn row_col(s: Seq<char>, i: int) -> (int, int)
    decreases i,
{
    if i <= 0 {
        (0, 0)
    } else {
        let p = row_col(s, i - 1);
        if s[i - 1] == '\n' { (p.0 + 1, 0) } else { (p.0, p.1 + 1) }
    }
}

/// Scanning forward from index `i` (with coordinate `(row, col)`): the first
/// index that lies on the target row and either reaches the target column or
/// the end of that row; the end of the text when the target row is past it.
pub open spec fn seek(s: Seq<char>, trow: int, tcol: int, i: int, row: int, col: int) -> int
    decreases s.len() - i,
{
    if i >= s.len() {
        s.len() as int
    } else if row == trow && (col == tcol || s[i] == '\n') {
        i
    } else if s[i] == '\n' {
        seek(s, trow, tcol, i + 1, row + 1, 0)
    } else {
        seek(s, trow, tcol, i + 1, row, col + 1)
    }
}

/// The character index that a (possibly out-of-range) position resolves to:
/// columns past the end of a row clamp to the row end, rows past the last
/// row clamp to the end of the text.
pub open spec fn index_of_position(s: Seq<char>, row: int, col: int) -> int {
    seek(s, row, col, 0, 0, 0)
}

/// The number of rows: one more than the number of `'\n'`.
pub open spec fn line_count(s: Seq<char>) -> int {
    row_col(s, s.len() as int).0 + 1
}

/// The number of characters of `row` (without its `'\n'`); 0 past the last row.
pub open spec fn line_len(s: Seq<char>, row: int) -> int {
    if 0 <= row < line_count(s) {
        row_col(s, index_of_position(s, row, s.len() as int + 1)).1
    } else {
        0
    }
}

/// Coordinates never exceed the index.
pub proof fn lemma_row_col_bounds(s: Seq<char>, i: int)
    requires 0 <= i,
    ensures 0 <= row_col(s, i).0 <= i, 0 <= row_col(s, i).1 <= i,
    decreases i,
{
    if i > 0 {
        lemma_row_col_bounds(s, i - 1);
    }
}

/// The index `seek` returns lies between the scan start and the end.
pub proof fn lemma_seek_bounds(s: Seq<char>, trow: int, tcol: int, i: int, row: int, col: int)
    requires 0 <= i <= s.len(),
    ensures i <= seek(s, trow, tcol, i, row, col) <= s.len(),
    decreases s.len() - i,
{
    if i < s.len() && !(row == trow && (col == tcol || s[i] == '\n')) {
        if s[i] == '\n' {
            lemma_seek_bounds(s, trow, tcol, i + 1, row + 1, 0);
        } else {
            lemma_seek_bounds(s, trow, tcol, i + 1, row, col + 1);
        }
    }
}

/// Coordinates grow strictly (lexicographically) with the index, and a
/// `'\n'` before `i` puts `i` on a later row.
pub proof fn lemma_row_col_mono(s: Seq<char>, j: int, i: int)
    requires 0 <= j < i <= s.len(),
    ensures
        row_col(s, j).0 < row_col(s, i).0
            || (row_col(s, j).0 == row_col(s, i).0 && row_col(s, j).1 < row_col(s, i).1),
        s[j] == '\n' ==> row_col(s, j).0 < row_col(s, i).0,
    decreases i - j,
{
    if j + 1 < i {
        lemma_row_col_mono(s, j + 1, i);
    }
}

/// Scanning from `j` for the coordinate of index `i >= j` finds `i`.
pub proof fn lemma_seek_finds(s: Seq<char>, j: int, i: int)
    requires 0 <= j <= i <= s.len(),
    ensures seek(s, row_col(s, i).0, row_col(s, i).1, j, row_col(s, j).0, row_col(s, j).1) == i,
    decreases i - j,
{
    if j < i {
        lemma_row_col_mono(s, j, i);
        lemma_seek_finds(s, j + 1, i);
    }
}

/// Resolving the coordinate of an index gives back that index.
pub proof fn lemma_index_of_row_col(s: Seq<char>, i: int)
    requires 0 <= i <= s.len(),
    ensures index_of_position(s, row_col(s, i).0, row_col(s, i).1) == i,
{
    lemma_seek_finds(s, 0, i);
}

/// A position as `u32` coordinates, for texts short enough to address.
pub open spec fn position_of(rc: (int, int)) -> Position {
    Position { row: rc.0 as u32, col: rc.1 as u32 }
}

/// The clamped position a position resolves to.
pub open spec fn clamp_position_spec(s: Seq<char>, p: Position) -> Position {
    position_of(row_col(s, index_of_position(s, p.row as int, p.col as int)))
}

/// The position of the character boundary at or before byte offset `off`.
pub open spec fn position_at_offset(s: Seq<char>, off: int) -> Position {
    position_of(row_col(s, char_floor(s, off) as int))
}

/// The byte offset a position resolves to (after clamping).
pub open spec fn offset_of_position(s: Seq<char>, p: Position) -> nat {
    byte_offset(s, index_of_position(s, p.row as int, p.col as int))
}

/// Law: clamping is idempotent, converting a clamped position to an offset
/// and back gives it again, and a character-boundary offset survives the
/// round trip offset -> position -> offset.
pub proof fn lemma_position_offset_roundtrip(s: Seq<char>, p: Position, off: int)
    requires addressable(s),
    ensures
        clamp_position_spec(s, clamp_position_spec(s, p)) == clamp_position_spec(s, p),
        position_at_offset(s, offset_of_position(s, p) as int) == clamp_position_spec(s, p),
        is_char_boundary(s, off) && off <= byte_len(s)
            ==> offset_of_position(s, position_at_offset(s, off)) == off,
{
    let i = index_of_position(s, p.row as int, p.col as int);
    lemma_seek_bounds(s, p.row as int, p.col as int, 0, 0, 0);
    lemma_row_col_bounds(s, i);
    lemma_index_of_row_col(s, i);
    lemma_char_floor_of_offset(s, i);
    if off >= 0 {
        lemma_char_floor(s, off);
        let f = char_floor(s, off) as int;
        lemma_row_col_bounds(s, f);
        lemma_index_of_row_col(s, f);
    }
}

// ---------------------------------------------------------------------------
// Errors
// ---------------------------------------------------------------------------

/// Why a byte range is not usable on a text buffer.
#[derive(Debug, Clone, Copy, PartialEq, Eq, Structural)]
pub enum TextBufferError {
    /// The start lies after the end.
    InvalidRange { start: usize, end: usize },
    /// The offset lies past the end of the text.
    OutOfBounds { offset: usize, len: usize },
    /// The offset falls inside the encoding of one character.
    NotCharBoundary { offset: usize },
    /// The resulting text would be too large to address.
    CapacityOverflow,
}

/// The error (if any) that validating the byte range `[start, end)` reports.
pub open spec fn range_error(s: Seq<char>, start: int, end: int) -> Option<TextBufferError> {
    if start > end {
        Some(TextBufferError::InvalidRange { start: start as usize, end: end as usize })
    } else if end > byte_len(s) {
        Some(TextBufferError::OutOfBounds { offset: end as usize, len: byte_len(s) as usize })
    } else if !is_char_boundary(s, start) {
        Some(TextBufferError::NotCharBoundary { offset: start as usize })
    } else if !is_char_boundary(s, end) {
        Some(TextBufferError::NotCharBoundary { offset: end as usize })
    } else {
        None
    }
}

/// Whether a text is small enough for positions (`u32`) and byte offsets
/// (`usize`) to address all of it.
pub open spec fn addressable(s: Seq<char>) -> bool {
    s.len() <= u32::MAX && byte_len(s) <= usize::MAX
}

// ---------------------------------------------------------------------------
// Trusted standard-library helper
// ---------------------------------------------------------------------------

/// `String::push`: appends the character to the end of the string.
#[verifier::external_body]
pub fn string_push(s: &mut String, c: char)
    ensures final(s)@ == old(s)@.push(c),
{
    s.push(c);
}

/// Builds a `String` holding exactly the characters of `chars[from..to]`.
pub fn string_from_chars(chars: &Vec<char>, from: usize, to: usize) -> (r: String)
    requires from <= to <= chars@.len(),
    ensures r@ == chars@.subrange(from as int, to as int),
{
    let mut r = String::new();
    let mut i = from;
    while i < to
        invariant
            from <= i <= to <= chars@.len(),
            r@ == chars@.subrange(from as int, i as int),
        decreases to - i,
    {
        string_push(&mut r, chars[i]);
        proof {
            assert(chars@.subrange(from as int, i + 1) =~= chars@.subrange(from as int, i as int).push(chars@[i as int]));
        }
        i = i + 1;
    }
    r
}

/// The characters of a string slice, in order.
pub fn chars_of(text: &str) -> (v: Vec<char>)
    ensures v@ == text@,
{
    broadcast use vstd::string::axiom_spec_iter;
    let mut v: Vec<char> = Vec::new();
    for c in it: text.chars()
        invariant
            v@ == it.seq().take(it.index() as int),
    {
        v.push(c);
    }
    v
}

/// The UTF-8 width of a character, computed from its code point.
pub fn char_width(c: char) -> (w: usize)
    ensures w == utf8_width(c), 1 <= w <= 4,
{
    proof { lemma_utf8_width(c); }
    let u = c as u32;
    if u < 0x80 {
        1
    } else if u < 0x800 {
        2
    } else if u < 0x10000 {
        3
    } else {
        4
    }
}


// ---------------------------------------------------------------------------
// Executable scans over character vectors
// ---------------------------------------------------------------------------

/// The floor index of byte offset `off` and that index's byte offset.
pub fn floor_index(chars: &Vec<char>, off: usize) -> (r: (usize, usize))
    requires addressable(chars@),
    ensures
        r.0 == char_floor(chars@, off as int),
        r.0 <= chars@.len(),
        r.1 == byte_offset(chars@, r.0 as int),
        r.1 <= off,
{
    let ghost s = chars@;
    let mut i: usize = 0;
    let mut b: usize = 0;
    proof { assert(s.take(0) =~= Seq::<char>::empty()); }
    while i < chars.len()
        invariant
            s == chars@,
            addressable(s),
            i <= s.len(),
            b == byte_offset(s, i as int),
            b <= off,
        ensures
            i <= s.len(),
            b == byte_offset(s, i as int),
            b <= off,
            i < s.len() ==> byte_offset(s, i + 1) > off,
        decreases s.len() - i,
    {
        let w = char_width(chars[i]);
        proof {
            lemma_byte_offset_step(s, i as int);
            lemma_byte_offset_mono(s, i + 1, s.len() as int);
            lemma_byte_offset_full(s);
        }
        if off - b < w {
            break;
        }
        b = b + w;
        i = i + 1;
    }
    proof { lemma_char_floor_unique(s, off as int, i as int); }
    (i, b)
}

/// The byte offset at which the character with index `i` starts.
pub fn offset_at_index(chars: &Vec<char>, i: usize) -> (b: usize)
    requires addressable(chars@), i <= chars@.len(),
    ensures b == byte_offset(chars@, i as int),
{
    let ghost s = chars@;
    let mut k: usize = 0;
    let mut b: usize = 0;
    proof { assert(s.take(0) =~= Seq::<char>::empty()); }
    while k < i
        invariant
            s == chars@,
            addressable(s),
            k <= i <= s.len(),
            b == byte_offset(s, k as int),
        decreases i - k,
    {
        proof {
            lemma_byte_offset_step(s, k as int);
            lemma_byte_offset_mono(s, k + 1, s.len() as int);
            lemma_byte_offset_full(s);
        }
        b = b + char_width(chars[k]);
        k = k + 1;
    }
    b
}

/// The byte length of the whole vector.
pub fn byte_len_of(chars: &Vec<char>) -> (b: usize)
    requires addressable(chars@),
    ensures b == byte_len(chars@),
{
    proof { lemma_byte_offset_full(chars@); }
    offset_at_index(chars, chars.len())
}

/// The `(row, col)` coordinate of index `i`.
pub fn row_col_at(chars: &Vec<char>, i: usize) -> (r: (u32, u32))
    requires addressable(chars@), i <= chars@.len(),
    ensures r.0 == row_col(chars@, i as int).0, r.1 == row_col(chars@, i as int).1,
{
    let ghost s = chars@;
    let mut k: usize = 0;
    let mut row: u32 = 0;
    let mut col: u32 = 0;
    while k < i
        invariant
            s == chars@,
            addressable(s),
            k <= i <= s.len(),
            row == row_col(s, k as int).0,
            col == row_col(s, k as int).1,
        decreases i - k,
    {
        proof { lemma_row_col_bounds(s, k as int); }
        if chars[k] == '\n' {
            row = row + 1;
            col = 0;
        } else {
            col = col + 1;
        }
        k = k + 1;
    }
    (row, col)
}

/// The index a target coordinate resolves to (see `index_of_position`).
pub fn index_of_target(chars: &Vec<char>, trow: u64, tcol: u64) -> (r: usize)
    requires addressable(chars@),
    ensures
        r == index_of_position(chars@, trow as int, tcol as int),
        r <= chars@.len(),
{
    let ghost s = chars@;
    let mut i: usize = 0;
    let mut row: u64 = 0;
    let mut col: u64 = 0;
    proof { lemma_seek_bounds(s, trow as int, tcol as int, 0, 0, 0); }
    while i < chars.len()
        invariant
            s == chars@,
            addressable(s),
            i <= s.len(),
            row == row_col(s, i as int).0,
            col == row_col(s, i as int).1,
            seek(s, trow as int, tcol as int, i as int, row as int, col as int)
                == index_of_position(s, trow as int, tcol as int),
        decreases s.len() - i,
    {
        proof { lemma_row_col_bounds(s, i as int); }
        let c = chars[i];
        if row == trow && (col == tcol || c == '\n') {
            return i;
        }
        if c == '\n' {
            row = row + 1;
            col = 0;
        } else {
            col = col + 1;
        }
        i = i + 1;
    }
    i
}

// ---------------------------------------------------------------------------
// The text buffer
// ---------------------------------------------------------------------------

/// A text buffer: the single source of truth for text, byte offsets and
/// logical positions.
#[derive(Debug, PartialEq, Eq)]
pub struct TextBuffer {
    chars: Vec<char>,
}

impl View for TextBuffer {
    type V = Seq<char>;

    closed spec fn view(&self) -> Seq<char> {
        self.chars@
    }
}

impl TextBuffer {
    #[verifier::type_invariant]
    spec fn inv(self) -> bool {
        addressable(self.chars@)
    }

    /// Buffer of the given text.
    pub fn from_text(text: &str) -> (b: Self)
        requires addressable(text@),
        ensures b@ == text@,
    {
        TextBuffer { chars: chars_of(text) }
    }

    /// Buffer of the given characters.
    pub fn from_chars(chars: Vec<char>) -> (b: Self)
        requires addressable(chars@),
        ensures b@ == chars@,
    {
        TextBuffer { chars }
    }

    /// The characters of the buffer.
    pub fn chars(&self) -> (v: &Vec<char>)
        ensures v@ == self@, addressable(self@),
    {
        proof { use_type_invariant(self); }
        &self.chars
    }

    /// The length of the text in UTF-8 bytes.
    pub fn len(&self) -> (n: usize)
        ensures n == byte_len(self@),
    {
        proof { use_type_invariant(self); }
        byte_len_of(&self.chars)
    }

    /// Whether the text is empty.
    pub fn is_empty(&self) -> (b: bool)
        ensures b == (self@.len() == 0),
    {
        self.chars.len() == 0
    }

    /// The whole text as a `String`.
    pub fn to_string(&self) -> (s: String)
        ensures s@ == self@,
    {
        proof { assert(self.chars@.subrange(0, self.chars@.len() as int) =~= self.chars@); }
        string_from_chars(&self.chars, 0, self.chars.len())
    }

    /// The byte offset a position resolves to; rows and columns past the
    /// text clamp to the end of the row or of the text.
    pub fn position_to_offset(&self, position: Position) -> (off: usize)
        ensures
            off == offset_of_position(self@, position),
            is_char_boundary(self@, off as int),
            off <= byte_len(self@),
    {
        proof { use_type_invariant(self); }
        let i = index_of_target(&self.chars, position.row as u64, position.col as u64);
        proof {
            lemma_char_floor_of_offset(self.chars@, i as int);
            lemma_byte_offset_mono(self.chars@, i as int, self.chars@.len() as int);
            lemma_byte_offset_full(self.chars@);
        }
        offset_at_index(&self.chars, i)
    }

    /// The position of byte offset `offset`; an error when it lies past the
    /// end or inside a character.
    pub fn offset_to_position(&self, offset: usize) -> (r: Result<Position, TextBufferError>)
        ensures
            offset > byte_len(self@) ==> r == Err::<Position, TextBufferError>(
                TextBufferError::OutOfBounds { offset, len: byte_len(self@) as usize }),
            offset <= byte_len(self@) && !is_char_boundary(self@, offset as int)
                ==> r == Err::<Position, TextBufferError>(TextBufferError::NotCharBoundary { offset }),
            offset <= byte_len(self@) && is_char_boundary(self@, offset as int)
                ==> r == Ok::<Position, TextBufferError>(position_at_offset(self@, offset as int)),
    {
        let len = self.len();
        if offset > len {
            return Err(TextBufferError::OutOfBounds { offset, len });
        }
        let (i, b) = floor_index(&self.chars(), offset);
        if b != offset {
            return Err(TextBufferError::NotCharBoundary { offset });
        }
        let (row, col) = row_col_at(&self.chars(), i);
        Ok(Position { row, col })
    }

    /// The position of the character boundary at or before `offset`
    /// (offsets past the end give the end of the text).
    pub fn position_at_or_before(&self, offset: usize) -> (p: Position)
        ensures p == position_at_offset(self@, offset as int),
    {
        let (i, _b) = floor_index(self.chars(), offset);
        proof { lemma_char_floor(self@, offset as int); }
        let (row, col) = row_col_at(self.chars(), i);
        Position { row, col }
    }

    /// Clamps a position onto the text (see `clamp_position_spec`).
    pub fn clamp_position(&self, position: Position) -> (p: Position)
        ensures p == clamp_position_spec(self@, position),
    {
        let i = index_of_target(self.chars(), position.row as u64, position.col as u64);
        let (row, col) = row_col_at(self.chars(), i);
        Position { row, col }
    }

    /// Checks that `[start, end)` is a valid byte range of the text.
    pub fn validate_byte_range(&self, start: usize, end: usize) -> (r: Result<(), TextBufferError>)
        ensures
            range_error(self@, start as int, end as int) is None ==> r is Ok,
            range_error(self@, start as int, end as int) matches Some(e) ==> r == Err::<(), TextBufferError>(e),
    {
        if start > end {
            return Err(TextBufferError::InvalidRange { start, end });
        }
        let len = self.len();
        if end > len {
            return Err(TextBufferError::OutOfBounds { offset: end, len });
        }
        let (_i, b) = floor_index(self.chars(), start);
        if b != start {
            return Err(TextBufferError::NotCharBoundary { offset: start });
        }
        let (_j, e) = floor_index(self.chars(), end);
        if e != end {
            return Err(TextBufferError::NotCharBoundary { offset: end });
        }
        Ok(())
    }

    /// The number of rows (at least one).
    pub fn line_count(&self) -> (n: u64)
        ensures n == line_count(self@), n >= 1,
    {
        let (row, _col) = row_col_at(self.chars(), self.chars().len());
        proof { lemma_row_col_bounds(self@, self@.len() as int); }
        row as u64 + 1
    }

    /// The number of characters of `row`; 0 past the last row.
    pub fn line_len(&self, row: u32) -> (n: u32)
        ensures n == line_len(self@, row as int),
    {
        let count = self.line_count();
        if row as u64 >= count {
            return 0;
        }
        let chars = self.chars();
        let i = index_of_target(chars, row as u64, chars.len() as u64 + 1);
        let (_r, c) = row_col_at(chars, i);
        c
    }

    /// The start offset of the character that ends at (or contains) `offset`;
    /// `None` at the start of the text.
    pub fn prev_char_start(&self, offset: usize) -> (r: Option<usize>)
        ensures
            char_floor(self@, offset as int) == 0 ==> r is None,
            char_floor(self@, offset as int) > 0 ==> r == Some(
                byte_offset(self@, char_floor(self@, offset as int) - 1) as usize),
    {
        let (i, _b) = floor_index(self.chars(), offset);
        if i == 0 {
            return None;
        }
        Some(offset_at_index(self.chars(), i - 1))
    }

    /// The end offset of the character that starts at (or contains) `offset`;
    /// `None` at the end of the text.
    pub fn next_char_end(&self, offset: usize) -> (r: Option<usize>)
        ensures
            char_floor(self@, offset as int) >= self@.len() ==> r is None,
            char_floor(self@, offset as int) < self@.len() ==> r == Some(
                byte_offset(self@, char_floor(self@, offset as int) as int + 1) as usize),
    {
        let chars = self.chars();
        let (i, _b) = floor_index(chars, offset);
        if i >= chars.len() {
            return None;
        }
        Some(offset_at_index(chars, i + 1))
    }

    /// The character that starts at (or contains) `offset`; `None` at the end.
    pub fn char_at(&self, offset: usize) -> (r: Option<char>)
        ensures
            char_floor(self@, offset as int) >= self@.len() ==> r is None,
            char_floor(self@, offset as int) < self@.len() ==> r == Some(
                self@[char_floor(self@, offset as int) as int]),
    {
        let chars = self.chars();
        let (i, _b) = floor_index(chars, offset);
        if i >= chars.len() {
            return None;
        }
        Some(chars[i])
    }
}

impl Clone for TextBuffer {
    /// A buffer with the same text.
    fn clone(&self) -> (r: Self)
        ensures r@ == self@,
    {
        proof { use_type_invariant(self); }
        let chars = self.chars.clone();
        proof { assert(chars@ =~= self.chars@); }
        TextBuffer { chars }
    }
}

/// Moves both ends of a selection onto the text: each end goes through
/// `position -> offset -> position`, which clamps rows and columns.
pub fn clamp_selection_to_text(buffer: &TextBuffer, selection: Selection) -> (r: Selection)
    ensures
        r@ == (clamp_position_spec(buffer@, selection@.0), clamp_position_spec(buffer@, selection@.1)),
{
    Selection::new(buffer.clamp_position(selection.anchor()), buffer.clamp_position(selection.active()))
}
} // verus!
