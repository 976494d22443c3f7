//! The editor/runtime protocol: versions, text deltas, line ranges, the
//! viewport, requests from the runtime and the editor's responses and events.

use vstd::prelude::*;

use crate::selection::Selection;

verus! {

/// A document version as seen by the runtime.
#[derive(Debug, Clone, Copy, PartialEq, Eq, Structural, Hash)]
pub struct DocumentVersion(pub u64);

impl DocumentVersion {
    /// The version of a fresh document.
    pub fn zero() -> (v: Self)
        ensures v.0 == 0,
    {
        DocumentVersion(0)
    }

    /// The version number.
    pub fn get(self) -> (n: u64)
        ensures n == self.0,
    {
        self.0
    }
}

impl From<u64> for DocumentVersion {
    fn from(value: u64) -> (v: Self)
        ensures v == (DocumentVersion(value)),
    {
        DocumentVersion(value)
    }
}

impl vstd::std_specs::convert::FromSpecImpl<u64> for DocumentVersion {
    open spec fn obeys_from_spec() -> bool {
        true
    }

    open spec fn from_spec(value: u64) -> DocumentVersion {
        DocumentVersion(value)
    }
}

/// The id the runtime gives a request.
#[derive(Debug, PartialEq, Eq, Hash)]
pub struct RuntimeRequestId(pub String);

impl RuntimeRequestId {
    /// An id.
    pub fn new(id: &str) -> (r: Self)
        ensures r.0@ == id@,
    {
        RuntimeRequestId(id.to_owned())
    }
}

impl Clone for RuntimeRequestId {
    fn clone(&self) -> (r: Self)
        ensures r == *self,
    {
        RuntimeRequestId(self.0.clone())
    }
}

/// A text change in protocol form: byte offsets as `u64`.
#[derive(Debug, PartialEq, Eq, Hash)]
pub struct TextDelta {
    /// Start offset (inclusive).
    pub from: u64,
    /// End offset (exclusive).
    pub to: u64,
    /// Replacement text.
    pub insert: String,
}

impl TextDelta {
    /// A delta.
    pub fn new(from: u64, to: u64, insert: &str) -> (d: Self)
        ensures d.from == from, d.to == to, d.insert@ == insert@,
    {
        TextDelta { from, to, insert: insert.to_owned() }
    }
}

/// A half-open range of lines.
#[derive(Debug, Clone, Copy, PartialEq, Eq, Structural, Hash)]
pub struct LineRange {
    /// First line.
    pub start_line: u32,
    /// One past the last line.
    pub end_line_exclusive: u32,
}

impl LineRange {
    /// A line range.
    pub fn new(start_line: u32, end_line_exclusive: u32) -> (r: Self)
        ensures r == (LineRange { start_line, end_line_exclusive }),
    {
        LineRange { start_line, end_line_exclusive }
    }
}

/// The lines a viewport shows.
#[derive(Debug, Clone, Copy, PartialEq, Eq, Structural, Hash)]
pub struct ViewportState {
    /// First visible line.
    pub first_visible_line: u32,
    /// Number of visible lines.
    pub visible_line_count: u32,
}

impl ViewportState {
    /// A viewport.
    pub fn new(first_visible_line: u32, visible_line_count: u32) -> (v: Self)
        ensures v == (ViewportState { first_visible_line, visible_line_count }),
    {
        ViewportState { first_visible_line, visible_line_count }
    }
}

/// Why the viewport must be redrawn.
#[derive(Debug, Clone, Copy, PartialEq, Eq, Structural, Hash)]
pub enum ViewportInvalidationReason {
    /// It scrolled.
    ViewportScrolled,
    /// It was resized.
    ViewportResized,
    /// The wrap width changed.
    WrapWidthChanged,
    /// The layout changed.
    LayoutChanged,
}

/// Events the editor sends to the runtime.
#[derive(Debug, PartialEq, Eq)]
pub enum EditorToRuntimeEvent {
    /// The whole state.
    Snapshot { version: DocumentVersion, text: String, selection: Selection },
    /// The text changed.
    Delta { version: DocumentVersion, changes: Vec<TextDelta>, selection: Selection, dirty_lines: Vec<LineRange> },
    /// Only the selection changed.
    SelectionChanged { version: DocumentVersion, selection: Selection, dirty_lines: Vec<LineRange> },
    /// The viewport must be redrawn.
    ViewportInvalidated {
        version: DocumentVersion,
        dirty_lines: Vec<LineRange>,
        viewport: Option<ViewportState>,
        reason: ViewportInvalidationReason,
    },
}

/// Why a runtime request failed.
#[derive(Debug, Clone, Copy, PartialEq, Eq, Structural, Hash)]
pub enum RuntimeErrorCode {
    /// The request was made against another version.
    VersionMismatch,
    /// The request was malformed.
    InvalidRequest,
}

/// Requests from the runtime.
#[derive(Debug, PartialEq, Eq)]
pub enum RuntimeToEditorRequest {
    /// Send the whole state.
    RequestSnapshot,
    /// Apply edits made against `expected_version`.
    ApplyEdits {
        request_id: RuntimeRequestId,
        expected_version: DocumentVersion,
        changes: Vec<TextDelta>,
        selection: Option<Selection>,
    },
    /// Set the selection.
    SetSelection {
        request_id: RuntimeRequestId,
        expected_version: Option<DocumentVersion>,
        selection: Selection,
    },
}

/// The editor's answer to a runtime request.
#[derive(Debug, PartialEq, Eq)]
pub enum RuntimeResponse {
    /// The whole state.
    Snapshot(EditorToRuntimeEvent),
    /// The request was applied.
    Ack { request_id: RuntimeRequestId, version: DocumentVersion, event: Option<EditorToRuntimeEvent> },
    /// The request was refused.
    Error { request_id: RuntimeRequestId, code: RuntimeErrorCode, current_version: DocumentVersion },
}

} // verus!
