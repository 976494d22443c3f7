//! The viewport model: which lines are shown and at which wrap width, and
//! the invalidation event each change of them produces.

use vstd::prelude::*;

use super::line_ranges::{merge_line_ranges, merged_ranges};
use super::protocol::{DocumentVersion, EditorToRuntimeEvent, LineRange, ViewportInvalidationReason, ViewportState};

verus! {

/// What changed the viewport.
#[derive(Debug, Clone, Copy, PartialEq, Eq, Structural, Hash)]
pub enum ViewportMutation {
    /// It scrolled.
    Scroll,
    /// It was resized.
    Resize,
    /// The wrap width changed.
    WrapWidthChanged,
}

/// The invalidation reason of a mutation.
pub open spec fn reason_of(m: ViewportMutation) -> ViewportInvalidationReason {
    match m {
        ViewportMutation::Scroll => ViewportInvalidationReason::ViewportScrolled,
        ViewportMutation::Resize => ViewportInvalidationReason::ViewportResized,
        ViewportMutation::WrapWidthChanged => ViewportInvalidationReason::WrapWidthChanged,
    }
}

impl ViewportMutation {
    fn reason(self) -> (r: ViewportInvalidationReason)
        ensures r == reason_of(self),
    {
        match self {
            ViewportMutation::Scroll => ViewportInvalidationReason::ViewportScrolled,
            ViewportMutation::Resize => ViewportInvalidationReason::ViewportResized,
            ViewportMutation::WrapWidthChanged => ViewportInvalidationReason::WrapWidthChanged,
        }
    }
}

/// A viewport change.
#[derive(Debug, Clone, Copy, PartialEq, Eq, Structural, Hash)]
pub struct ViewportUpdate {
    /// The requested viewport.
    pub viewport: ViewportState,
    /// The wrap column (at least 1).
    pub wrap_column: u32,
    /// What changed.
    pub mutation: ViewportMutation,
}

impl ViewportUpdate {
    /// An update; a wrap column of 0 counts as 1.
    pub fn new(viewport: ViewportState, wrap_column: u32, mutation: ViewportMutation) -> (u: Self)
        ensures u == (ViewportUpdate { viewport, wrap_column: if wrap_column < 1 { 1 } else { wrap_column }, mutation }),
    {
        ViewportUpdate { viewport, wrap_column: if wrap_column < 1 { 1 } else { wrap_column }, mutation }
    }
}

/// The viewport shown and the wrap column.
#[derive(Debug, Clone, Copy, PartialEq, Eq, Structural, Hash)]
pub struct ViewportSnapshot {
    /// The viewport.
    pub viewport: ViewportState,
    /// The wrap column.
    pub wrap_column: u32,
}

/// The viewport model.
#[derive(Debug, Clone, PartialEq, Eq)]
pub struct ViewportModel {
    current: Option<ViewportSnapshot>,
}

impl View for ViewportModel {
    type V = Option<ViewportSnapshot>;

    closed spec fn view(&self) -> Option<ViewportSnapshot> {
        self.current
    }
}

/// A viewport clamped onto a document of `n` lines (at least one): the first
/// line is a line of the document, and between one line and the lines left
/// from there are shown.
pub open spec fn normalize_spec(v: ViewportState, n: u32) -> ViewportState {
    let total: int = if n < 1 { 1 } else { n as int };
    let first: int = if v.first_visible_line < total - 1 { v.first_visible_line as int } else { total - 1 };
    let left: int = total - first;
    let max_count: int = if left < 1 { 1 } else { left };
    let wanted: int = if v.visible_line_count < 1 { 1 } else { v.visible_line_count as int };
    ViewportState {
        first_visible_line: first as u32,
        visible_line_count: (if wanted < max_count { wanted } else { max_count }) as u32,
    }
}

/// The lines a viewport shows, as a range (its end saturating).
pub open spec fn range_of(v: ViewportState) -> LineRange {
    let end: int = v.first_visible_line + v.visible_line_count;
    LineRange {
        start_line: v.first_visible_line,
        end_line_exclusive: if end > u32::MAX { u32::MAX } else { end as u32 },
    }
}

/// The snapshot an update leads to.
pub open spec fn next_snapshot(n: u32, update: ViewportUpdate) -> ViewportSnapshot {
    ViewportSnapshot {
        viewport: normalize_spec(update.viewport, n),
        wrap_column: if update.wrap_column < 1 { 1 } else { update.wrap_column },
    }
}

/// The lines to redraw: those of the previous and of the next viewport.
pub open spec fn dirty_spec(prev: Option<ViewportSnapshot>, next: ViewportSnapshot) -> Seq<LineRange> {
    match prev {
        Some(p) => merged_ranges(seq![range_of(p.viewport), range_of(next.viewport)]),
        None => seq![range_of(next.viewport)],
    }
}

fn normalize_viewport(viewport: ViewportState, document_line_count: u32) -> (v: ViewportState)
    ensures v == normalize_spec(viewport, document_line_count),
{
    let total: u32 = if document_line_count < 1 { 1 } else { document_line_count };
    let first: u32 = if viewport.first_visible_line < total - 1 { viewport.first_visible_line } else { total - 1 };
    let left: u32 = total - first;
    let max_count: u32 = if left < 1 { 1 } else { left };
    let wanted: u32 = if viewport.visible_line_count < 1 { 1 } else { viewport.visible_line_count };
    ViewportState::new(first, if wanted < max_count { wanted } else { max_count })
}

fn viewport_to_line_range(viewport: ViewportState) -> (r: LineRange)
    ensures r == range_of(viewport),
{
    LineRange::new(viewport.first_visible_line, viewport.first_visible_line.saturating_add(viewport.visible_line_count))
}

impl ViewportModel {
    /// A model that shows nothing yet.
    pub fn new() -> (m: Self)
        ensures m@ is None,
    {
        ViewportModel { current: None }
    }

    /// Applies an update for a document of `document_line_count` lines: the
    /// viewport is clamped onto the document; when nothing changed there is
    /// no event; otherwise the new snapshot is kept and an invalidation of
    /// the lines of the previous and the new viewport is returned.
    pub fn apply(&mut self, version: DocumentVersion, document_line_count: u32, update: ViewportUpdate) -> (r: Option<EditorToRuntimeEvent>)
        ensures
            ({
                let next = next_snapshot(document_line_count, update);
                &&& final(self)@ == Some(next)
                &&& old(self)@ == Some(next) ==> r is None
                &&& old(self)@ != Some(next) ==> (r matches Some(EditorToRuntimeEvent::ViewportInvalidated { version: v, dirty_lines: d, viewport: vp, reason: rs })
                    && v == version && d@ == dirty_spec(old(self)@, next) && vp == Some(next.viewport) && rs == reason_of(update.mutation))
            }),
    {
        let normalized = normalize_viewport(update.viewport, document_line_count);
        let next = ViewportSnapshot {
            viewport: normalized,
            wrap_column: if update.wrap_column < 1 { 1 } else { update.wrap_column },
        };
        let dirty_lines = match self.current {
            Some(previous) => {
                if previous == next {
                    return None;
                }
                merge_line_ranges(vec![viewport_to_line_range(previous.viewport), viewport_to_line_range(next.viewport)])
            },
            None => vec![viewport_to_line_range(next.viewport)],
        };
        self.current = Some(next);
        Some(EditorToRuntimeEvent::ViewportInvalidated {
            version,
            dirty_lines,
            viewport: Some(next.viewport),
            reason: update.mutation.reason(),
        })
    }
}

/// Law: the viewport after normalization lies in the document: it starts on
/// a line of the document, shows at least one line, and ends at the latest
/// with the document.
pub proof fn law_normalized_viewport_within_document(v: ViewportState, n: u32)
    ensures ({
        let w = normalize_spec(v, n);
        let total: int = if n < 1 { 1 } else { n as int };
        &&& w.first_visible_line < total
        &&& w.visible_line_count >= 1
        &&& w.first_visible_line + w.visible_line_count <= total
    }),
{
}

} // verus!
