//! Single selections (anchor + active end) and de-duplicated selection sets.

use vstd::prelude::*;

use crate::position::{pos_le, pos_lt, pos_max, pos_min, position_le, position_lt, Position};
use crate::range::Range;

verus! {

/// One caret or one selection in the editor: a fixed `anchor` end and an
/// `active` end where the caret is.
#[derive(Debug, Clone, Copy, PartialEq, Eq, Structural, Hash)]
pub struct Selection {
    anchor: Position,
    active: Position,
}

impl View for Selection {
    /// `(anchor, active)`.
    type V = (Position, Position);

    closed spec fn view(&self) -> (Position, Position) {
        (self.anchor, self.active)
    }
}

/// The normalized start of a selection.
pub open spec fn sel_start(s: Selection) -> Position {
    pos_min(s@.0, s@.1)
}

/// The normalized end of a selection.
pub open spec fn sel_end(s: Selection) -> Position {
    pos_max(s@.0, s@.1)
}

impl Selection {
    /// The selection with the given ends, in specifications.
    pub closed spec fn spec_new(anchor: Position, active: Position) -> Selection {
        Selection { anchor, active }
    }

    /// The view of a specification-built selection.
    pub broadcast proof fn lemma_spec_new(anchor: Position, active: Position)
        ensures (#[trigger] Selection::spec_new(anchor, active))@ == (anchor, active),
    {
    }

    /// Rebuilding a selection from its view gives it back.
    pub broadcast proof fn lemma_spec_new_view(s: Selection)
        ensures Selection::spec_new((#[trigger] s@).0, s@.1) == s,
    {
    }
}

/// Two selections with equal views are equal values.
pub proof fn lemma_selection_view_injective(a: Selection, b: Selection)
    requires a@ == b@,
    ensures a == b,
{
}

impl Selection {
    /// Builds a selection from its anchor and active end.
    pub fn new(anchor: Position, active: Position) -> (s: Self)
        ensures s@ == (anchor, active), s == Selection::spec_new(anchor, active),
    {
        Selection { anchor, active }
    }

    /// The anchor end.
    pub fn anchor(self) -> (p: Position)
        ensures p == self@.0,
    {
        self.anchor
    }

    /// The active end (the caret).
    pub fn active(self) -> (p: Position)
        ensures p == self@.1,
    {
        self.active
    }

    /// A caret: a selection with no extent at `position`.
    pub fn caret(position: Position) -> (s: Self)
        ensures s@ == (position, position), s == Selection::spec_new(position, position),
    {
        Self::new(position, position)
    }

    /// Whether the selection is a bare caret.
    pub fn is_caret(self) -> (b: bool)
        ensures b == (self@.0 == self@.1),
    {
        self.anchor == self.active
    }

    /// Whether the active end lies before the anchor.
    pub fn is_reversed(self) -> (b: bool)
        ensures b == pos_lt(self@.1, self@.0),
    {
        position_lt(self.active, self.anchor)
    }

    /// The normalized start (the smaller end).
    pub fn start(self) -> (p: Position)
        ensures p == sel_start(self),
    {
        if position_le(self.anchor, self.active) { self.anchor } else { self.active }
    }

    /// The normalized end (the larger end).
    pub fn end(self) -> (p: Position)
        ensures p == sel_end(self),
    {
        if position_le(self.anchor, self.active) { self.active } else { self.anchor }
    }

    /// The normalized range covered by the selection.
    pub fn range(self) -> (r: Range)
        ensures r@ == (sel_start(self), sel_end(self)),
    {
        Range::new(self.start(), self.end())
    }
}

/// `s` with later repetitions of an element removed, first occurrences kept
/// in their order.
pub open spec fn dedup_keep_first(s: Seq<Selection>) -> Seq<Selection>
    decreases s.len(),
{
    if s.len() == 0 {
        s
    } else {
        let d = dedup_keep_first(s.drop_last());
        if d.contains(s.last()) { d } else { d.push(s.last()) }
    }
}

/// No element occurs twice.
pub open spec fn no_duplicates(s: Seq<Selection>) -> bool {
    forall|i: int, j: int| 0 <= i < j < s.len() ==> s[i] != s[j]
}

/// A set of selections for multi-caret editing; the first one is primary.
#[derive(Debug, Clone, PartialEq, Eq)]
pub struct SelectionSet {
    selections: Vec<Selection>,
}

impl View for SelectionSet {
    type V = Seq<Selection>;

    closed spec fn view(&self) -> Seq<Selection> {
        self.selections@
    }
}

fn vec_contains(v: &Vec<Selection>, x: Selection) -> (b: bool)
    ensures b == v@.contains(x),
{
    let mut i: usize = 0;
    while i < v.len()
        invariant
            i <= v.len(),
            forall|k: int| 0 <= k < i ==> v@[k] != x,
        decreases v.len() - i,
    {
        if v[i] == x {
            return true;
        }
        i = i + 1;
    }
    false
}

impl SelectionSet {
    /// Well-formedness: the set holds no duplicate selection.
    pub closed spec fn wf(&self) -> bool {
        no_duplicates(self.selections@)
    }

    /// Builds a set from `selections`, dropping repeated entries.
    pub fn new(selections: Vec<Selection>) -> (s: Self)
        ensures s@ == dedup_keep_first(selections@), s.wf(),
    {
        let mut unique: Vec<Selection> = Vec::with_capacity(selections.len());
        let mut i: usize = 0;
        while i < selections.len()
            invariant
                i <= selections.len(),
                unique@ == dedup_keep_first(selections@.take(i as int)),
                no_duplicates(unique@),
            decreases selections.len() - i,
        {
            let selection = selections[i];
            proof {
                assert(selections@.take(i + 1).drop_last() =~= selections@.take(i as int));
            }
            if !vec_contains(&unique, selection) {
                unique.push(selection);
            }
            i = i + 1;
        }
        proof {
            assert(selections@.take(selections.len() as int) =~= selections@);
        }
        SelectionSet { selections: unique }
    }

    /// A set holding one selection.
    pub fn single(selection: Selection) -> (s: Self)
        ensures s@ == seq![selection], s.wf(),
    {
        let mut v: Vec<Selection> = Vec::new();
        v.push(selection);
        proof {
            reveal_with_fuel(dedup_keep_first, 2);
            assert(v@.drop_last() =~= Seq::<Selection>::empty());
        }
        Self::new(v)
    }

    /// Whether the set is empty.
    pub fn is_empty(&self) -> (b: bool)
        ensures b == (self@.len() == 0),
    {
        self.selections.len() == 0
    }

    /// The number of selections.
    pub fn len(&self) -> (n: usize)
        ensures n == self@.len(),
    {
        self.selections.len()
    }

    /// An iterator over the selections, in order.
    pub fn iter(&self) -> (it: std::slice::Iter<'_, Selection>)
        ensures vstd::std_specs::slice::into_iter_elts(it) == self@,
    {
        broadcast use vstd::std_specs::slice::axiom_spec_slice_iter;
        self.selections.iter()
    }

    /// The primary (first) selection.
    pub fn primary(&self) -> (r: Option<&Selection>)
        ensures
            self@.len() == 0 ==> r is None,
            self@.len() > 0 ==> r == Some(&self@[0]),
    {
        self.selections.first()
    }

    /// Mutable access to the primary (first) selection.
    pub fn primary_mut(&mut self) -> (r: Option<&mut Selection>)
        ensures
            old(self)@.len() == 0 ==> r is None && final(self)@ == old(self)@,
            old(self)@.len() > 0 ==> r is Some && *r->0 == old(self)@[0]
                && final(self)@ == old(self)@.update(0, *final(r->0)),
    {
        self.selections.first_mut()
    }

    /// Appends `selection` unless it is already in the set.
    pub fn push(&mut self, selection: Selection)
        requires old(self).wf(),
        ensures
            final(self).wf(),
            old(self)@.contains(selection) ==> final(self)@ == old(self)@,
            !old(self)@.contains(selection) ==> final(self)@ == old(self)@.push(selection),
    {
        if !vec_contains(&self.selections, selection) {
            self.selections.push(selection);
        }
    }
}

} // verus!
