//! Sorting and merging line ranges: overlapping or touching ranges become
//! one.

use vstd::prelude::*;

use super::protocol::LineRange;

verus! {

/// Lexicographic order on `(start_line, end_line_exclusive)`.
pub open spec fn range_le(a: LineRange, b: LineRange) -> bool {
    a.start_line < b.start_line || (a.start_line == b.start_line && a.end_line_exclusive <= b.end_line_exclusive)
}

/// Inserts `r` right after the last range not greater than it.
pub open spec fn insert_range(s: Seq<LineRange>, r: LineRange) -> Seq<LineRange>
    decreases s.len(),
{
    if s.len() == 0 {
        seq![r]
    } else if range_le(s.last(), r) {
        s.push(r)
    } else {
        insert_range(s.drop_last(), r).push(s.last())
    }
}

/// Stable sort of ranges by `(start_line, end_line_exclusive)`.
pub open spec fn sort_ranges(s: Seq<LineRange>) -> Seq<LineRange>
    decreases s.len(),
{
    if s.len() == 0 { s } else { insert_range(sort_ranges(s.drop_last()), s.last()) }
}

/// Merges sorted ranges from left to right: a range starting at or before
/// the end of the previous merged range extends it.
pub open spec fn merge_sorted(s: Seq<LineRange>) -> Seq<LineRange>
    decreases s.len(),
{
    if s.len() == 0 {
        s
    } else {
        let m = merge_sorted(s.drop_last());
        let r = s.last();
        if m.len() > 0 && r.start_line <= m.last().end_line_exclusive {
            let last = m.last();
            m.update(m.len() - 1, LineRange {
                start_line: last.start_line,
                end_line_exclusive: if r.end_line_exclusive > last.end_line_exclusive { r.end_line_exclusive } else { last.end_line_exclusive },
            })
        } else {
            m.push(r)
        }
    }
}

/// The ranges sorted, then merged.
pub open spec fn merged_ranges(s: Seq<LineRange>) -> Seq<LineRange> {
    merge_sorted(sort_ranges(s))
}

proof fn lemma_insert_range_at(s: Seq<LineRange>, r: LineRange, j: int)
    requires
        0 <= j <= s.len(),
        j == 0 || range_le(s[j - 1], r),
        forall|k: int| j <= k < s.len() ==> !range_le(#[trigger] s[k], r),
    ensures insert_range(s, r) == s.insert(j, r),
    decreases s.len(),
{
    if s.len() == 0 {
        assert(s.insert(j, r) =~= seq![r]);
    } else if range_le(s.last(), r) {
        assert(s.insert(j, r) =~= s.push(r));
    } else {
        lemma_insert_range_at(s.drop_last(), r, j);
        assert(s.drop_last().insert(j, r).push(s.last()) =~= s.insert(j, r));
    }
}

fn range_le_exec(a: &LineRange, b: &LineRange) -> (r: bool)
    ensures r == range_le(*a, *b),
{
    a.start_line < b.start_line || (a.start_line == b.start_line && a.end_line_exclusive <= b.end_line_exclusive)
}

/// Sorts ranges by `(start_line, end_line_exclusive)`, keeping the order of
/// equal ones.
fn sort_line_ranges(ranges: &Vec<LineRange>) -> (r: Vec<LineRange>)
    ensures r@ == sort_ranges(ranges@),
{
    let mut sorted: Vec<LineRange> = Vec::new();
    let mut i: usize = 0;
    proof { assert(ranges@.take(0) =~= Seq::<LineRange>::empty()); }
    while i < ranges.len()
        invariant
            i <= ranges@.len(),
            sorted@ == sort_ranges(ranges@.take(i as int)),
        decreases ranges@.len() - i,
    {
        let c = ranges[i];
        let mut j: usize = sorted.len();
        while j > 0 && !range_le_exec(&sorted[j - 1], &c)
            invariant
                j <= sorted@.len(),
                forall|k: int| j <= k < sorted@.len() ==> !range_le(#[trigger] sorted@[k], c),
            decreases j,
        {
            j = j - 1;
        }
        proof {
            lemma_insert_range_at(sorted@, c, j as int);
            assert(ranges@.take(i + 1).drop_last() =~= ranges@.take(i as int));
        }
        sorted.insert(j, c);
        i = i + 1;
    }
    proof { assert(ranges@.take(ranges@.len() as int) =~= ranges@); }
    sorted
}

/// Sorts the ranges and merges those that overlap or touch.
pub fn merge_line_ranges(ranges: Vec<LineRange>) -> (r: Vec<LineRange>)
    ensures r@ == merged_ranges(ranges@),
{
    let sorted = sort_line_ranges(&ranges);
    let mut merged: Vec<LineRange> = Vec::new();
    let mut i: usize = 0;
    proof { assert(sorted@.take(0) =~= Seq::<LineRange>::empty()); }
    while i < sorted.len()
        invariant
            i <= sorted@.len(),
            merged@ == merge_sorted(sorted@.take(i as int)),
        decreases sorted@.len() - i,
    {
        let r = sorted[i];
        proof {
            assert(sorted@.take(i + 1).drop_last() =~= sorted@.take(i as int));
            assert(sorted@.take(i + 1).last() == r);
        }
        let n = merged.len();
        if n > 0 && r.start_line <= merged[n - 1].end_line_exclusive {
            let last = merged[n - 1];
            let end = if r.end_line_exclusive > last.end_line_exclusive { r.end_line_exclusive } else { last.end_line_exclusive };
            merged.set(n - 1, LineRange { start_line: last.start_line, end_line_exclusive: end });
        } else {
            merged.push(r);
        }
        i = i + 1;
    }
    proof { assert(sorted@.take(sorted@.len() as int) =~= sorted@); }
    merged
}

/// Merged ranges are ordered with gaps: each one starts after the end of
/// the one before.
proof fn lemma_merge_sorted_gaps(s: Seq<LineRange>)
    requires forall|k: int| 0 <= k < s.len() ==> (#[trigger] s[k]).start_line <= s[k].end_line_exclusive,
    ensures
        forall|k: int| 0 <= k < merge_sorted(s).len() ==>
            (#[trigger] merge_sorted(s)[k]).start_line <= merge_sorted(s)[k].end_line_exclusive,
        forall|k: int| 0 <= k < merge_sorted(s).len() - 1 ==>
            (#[trigger] merge_sorted(s)[k]).end_line_exclusive < merge_sorted(s)[k + 1].start_line,
    decreases s.len(),
{
    if s.len() > 0 {
        let d = s.drop_last();
        assert forall|k: int| 0 <= k < d.len() implies (#[trigger] d[k]).start_line <= d[k].end_line_exclusive by {
            assert(d[k] == s[k]);
        }
        lemma_merge_sorted_gaps(d);
        let m = merge_sorted(d);
        let r = s.last();
        assert(r == s[s.len() - 1]);
        let out = merge_sorted(s);
        if m.len() > 0 && r.start_line <= m.last().end_line_exclusive {
            assert forall|k: int| 0 <= k < out.len() implies (#[trigger] out[k]).start_line <= out[k].end_line_exclusive by {
                if k < m.len() - 1 { assert(out[k] == m[k]); }
            }
            assert forall|k: int| 0 <= k < out.len() - 1 implies (#[trigger] out[k]).end_line_exclusive < out[k + 1].start_line by {
                assert(out[k] == m[k]);
                if k + 1 < m.len() - 1 { assert(out[k + 1] == m[k + 1]); }
            }
        } else {
            assert forall|k: int| 0 <= k < out.len() implies (#[trigger] out[k]).start_line <= out[k].end_line_exclusive by {
                if k < m.len() { assert(out[k] == m[k]); }
            }
            assert forall|k: int| 0 <= k < out.len() - 1 implies (#[trigger] out[k]).end_line_exclusive < out[k + 1].start_line by {
                assert(out[k] == m[k]);
                if k + 1 < m.len() { assert(out[k + 1] == m[k + 1]); }
            }
        }
    }
}

/// Law: merging yields ordered, well-formed ranges with gaps between them
/// (none overlaps or touches the next).
pub proof fn law_merged_ranges_have_gaps(ranges: Seq<LineRange>)
    requires forall|k: int| 0 <= k < ranges.len() ==> (#[trigger] ranges[k]).start_line <= ranges[k].end_line_exclusive,
    ensures
        forall|k: int| 0 <= k < merged_ranges(ranges).len() - 1 ==>
            (#[trigger] merged_ranges(ranges)[k]).end_line_exclusive < merged_ranges(ranges)[k + 1].start_line,
{
    lemma_sort_ranges_keeps(ranges);
    lemma_merge_sorted_gaps(sort_ranges(ranges));
}

/// Sorting keeps the ranges (as a multiset).
proof fn lemma_sort_ranges_keeps(s: Seq<LineRange>)
    ensures
        sort_ranges(s).to_multiset() =~= s.to_multiset(),
        forall|k: int| 0 <= k < sort_ranges(s).len() ==> s.contains(#[trigger] sort_ranges(s)[k]),
    decreases s.len(),
{
    broadcast use vstd::seq_lib::group_to_multiset_ensures;
    if s.len() > 0 {
        lemma_sort_ranges_keeps(s.drop_last());
        lemma_insert_range_keeps(sort_ranges(s.drop_last()), s.last());
        assert(s =~= s.drop_last().push(s.last()));
        assert forall|k: int| 0 <= k < sort_ranges(s).len() implies s.contains(#[trigger] sort_ranges(s)[k]) by {
            let x = sort_ranges(s)[k];
            assert(sort_ranges(s).to_multiset().count(x) > 0);
            assert(s.to_multiset().count(x) > 0);
        }
    }
}

proof fn lemma_insert_range_keeps(s: Seq<LineRange>, r: LineRange)
    ensures insert_range(s, r).to_multiset() =~= s.to_multiset().insert(r),
    decreases s.len(),
{
    broadcast use vstd::seq_lib::group_to_multiset_ensures;
    if s.len() == 0 {
        assert(seq![r] =~= Seq::<LineRange>::empty().push(r));
    } else if !range_le(s.last(), r) {
        lemma_insert_range_keeps(s.drop_last(), r);
        assert(s =~= s.drop_last().push(s.last()));
    }
}

} // verus!
