//! The bridge between the editor state and the runtime: requests are
//! applied as transactions, answered with the new version and an event, and
//! rejected with a protocol error code.

use vstd::prelude::*;

use crate::position::Position;
use crate::selection::Selection;
use crate::text::{byte_len, position_at_offset};

use super::line_ranges::{merge_line_ranges, merged_ranges};
use super::protocol::{
    DocumentVersion, EditorToRuntimeEvent, LineRange, RuntimeErrorCode, RuntimeRequestId, RuntimeResponse,
    RuntimeToEditorRequest, TextDelta,
};
use super::state::{DocVersion, EditorState};
use super::transaction::{
    apply_transaction, change_view, changes_view, lemma_applied_changes_mappable, map_offset, map_offset_spec,
    transaction_bumps, transaction_outcome, ApplyError, ChangeView, TextChange, TransactionMeta, TransactionResult, TransactionSource,
    TransactionSpec,
};
use super::viewport::{ViewportModel, ViewportUpdate};

verus! {

/// A delta as a plain value.
pub open spec fn delta_view(d: TextDelta) -> (u64, u64, Seq<char>) {
    (d.from, d.to, d.insert@)
}

/// Deltas as plain values.
pub open spec fn deltas_view(ds: Seq<TextDelta>) -> Seq<(u64, u64, Seq<char>)> {
    ds.map_values(|d: TextDelta| delta_view(d))
}

/// Whether every offset of the deltas fits in a `usize`.
pub open spec fn deltas_fit(ds: Seq<TextDelta>) -> bool {
    forall|i: int| 0 <= i < ds.len() ==> (#[trigger] ds[i]).from <= usize::MAX && ds[i].to <= usize::MAX
}

/// Deltas as editor changes.
pub open spec fn deltas_as_changes(ds: Seq<TextDelta>) -> Seq<ChangeView> {
    ds.map_values(|d: TextDelta| (d.from as int, d.to as int, d.insert@))
}

/// Editor changes as plain deltas.
pub open spec fn changes_as_deltas(cs: Seq<ChangeView>) -> Seq<(u64, u64, Seq<char>)> {
    cs.map_values(|c: ChangeView| (c.0 as u64, c.1 as u64, c.2))
}

/// One more than a line, saturating.
pub open spec fn next_line(l: u32) -> u32 {
    if l == u32::MAX { l } else { (l + 1) as u32 }
}

/// The lines a change touched: from its start line before the change to the
/// later of its end line before and after the change.
pub open spec fn change_lines(prev: Seq<char>, next: Seq<char>, cs: Seq<ChangeView>, c: ChangeView) -> LineRange {
    let start = position_at_offset(prev, c.0).row;
    let end_before = position_at_offset(prev, c.1).row;
    let mapped = map_offset_spec(c.1, cs);
    let end_after = position_at_offset(next, if mapped < byte_len(next) { mapped } else { byte_len(next) as int }).row;
    LineRange { start_line: start, end_line_exclusive: next_line(if end_before > end_after { end_before } else { end_after }) }
}

/// The lines touched by applied changes, merged.
pub open spec fn dirty_for_changes(prev: Seq<char>, next: Seq<char>, cs: Seq<ChangeView>) -> Seq<LineRange> {
    merged_ranges(cs.map_values(|c: ChangeView| change_lines(prev, next, cs, c)))
}

/// The line of a position, as a one-line range.
pub open spec fn line_of(p: Position) -> LineRange {
    LineRange { start_line: p.row, end_line_exclusive: next_line(p.row) }
}

/// The lines of both ends of the previous and the next selection, merged.
pub open spec fn dirty_for_selection(prev: Selection, next: Selection) -> Seq<LineRange> {
    merged_ranges(seq![line_of(prev@.0), line_of(prev@.1), line_of(next@.0), line_of(next@.1)])
}

/// An event as plain values.
pub enum EventView {
    Snapshot(u64, Seq<char>, Selection),
    Delta(u64, Seq<(u64, u64, Seq<char>)>, Selection, Seq<LineRange>),
    SelectionChanged(u64, Selection, Seq<LineRange>),
    ViewportInvalidated(u64, Seq<LineRange>, Option<super::protocol::ViewportState>, super::protocol::ViewportInvalidationReason),
}

/// The plain value of an event.
pub open spec fn event_view(e: EditorToRuntimeEvent) -> EventView {
    match e {
        EditorToRuntimeEvent::Snapshot { version, text, selection } => EventView::Snapshot(version.0, text@, selection),
        EditorToRuntimeEvent::Delta { version, changes, selection, dirty_lines } =>
            EventView::Delta(version.0, deltas_view(changes@), selection, dirty_lines@),
        EditorToRuntimeEvent::SelectionChanged { version, selection, dirty_lines } =>
            EventView::SelectionChanged(version.0, selection, dirty_lines@),
        EditorToRuntimeEvent::ViewportInvalidated { version, dirty_lines, viewport, reason } =>
            EventView::ViewportInvalidated(version.0, dirty_lines@, viewport, reason),
    }
}

/// The event a successful transaction emits: a delta when the text changed,
/// else a selection change when the selection did, else none.
pub open spec fn transaction_event(
    prev: (Seq<char>, Selection, u64),
    t: (Seq<char>, (Position, Position), u64, Seq<ChangeView>, bool, bool),
) -> Option<EventView> {
    let next_sel = Selection::spec_new(t.1.0, t.1.1);
    if t.4 {
        Some(EventView::Delta(t.2, changes_as_deltas(t.3), next_sel, dirty_for_changes(prev.0, t.0, t.3)))
    } else if t.5 {
        Some(EventView::SelectionChanged(t.2, next_sel, dirty_for_selection(prev.1, next_sel)))
    } else {
        None
    }
}

/// A response as plain values.
pub enum ResponseView {
    Snapshot(EventView),
    Ack(Seq<char>, u64, Option<EventView>),
    Error(Seq<char>, RuntimeErrorCode, u64),
}

/// The plain value of a response.
pub open spec fn response_view(r: RuntimeResponse) -> ResponseView {
    match r {
        RuntimeResponse::Snapshot(e) => ResponseView::Snapshot(event_view(e)),
        RuntimeResponse::Ack { request_id, version, event } => ResponseView::Ack(request_id.0@, version.0,
            match event { Some(e) => Some(event_view(e)), None => None }),
        RuntimeResponse::Error { request_id, code, current_version } => ResponseView::Error(request_id.0@, code, current_version.0),
    }
}

/// The outcome of a runtime transaction on the state: the new state and the
/// response.
pub open spec fn runtime_transaction_outcome(
    st: (Seq<char>, Selection, u64),
    id: Seq<char>,
    changes: Seq<ChangeView>,
    selection: Option<Selection>,
    expected: Option<DocVersion>,
) -> ((Seq<char>, (Position, Position), u64), ResponseView) {
    match transaction_outcome(st.0, st.1, st.2, changes, selection, expected) {
        Ok(t) => ((t.0, t.1, t.2), ResponseView::Ack(id, t.2, transaction_event(st, t))),
        Err(ApplyError::VersionMismatch { current_version }) =>
            ((st.0, st.1@, st.2), ResponseView::Error(id, RuntimeErrorCode::VersionMismatch, current_version@)),
        Err(_) => ((st.0, st.1@, st.2), ResponseView::Error(id, RuntimeErrorCode::InvalidRequest, st.2)),
    }
}

/// The outcome of a runtime request on the state: the new state and the
/// response. Offsets beyond a `usize` make an edit request invalid.
pub open spec fn runtime_outcome(st: (Seq<char>, Selection, u64), request: RuntimeToEditorRequest)
    -> ((Seq<char>, (Position, Position), u64), ResponseView)
{
    match request {
        RuntimeToEditorRequest::RequestSnapshot =>
            ((st.0, st.1@, st.2), ResponseView::Snapshot(EventView::Snapshot(st.2, st.0, st.1))),
        RuntimeToEditorRequest::ApplyEdits { request_id, expected_version, changes, selection } =>
            if !deltas_fit(changes@) {
                ((st.0, st.1@, st.2), ResponseView::Error(request_id.0@, RuntimeErrorCode::InvalidRequest, st.2))
            } else {
                runtime_transaction_outcome(st, request_id.0@, deltas_as_changes(changes@), selection,
                    Some(DocVersion::spec_of(expected_version.0)))
            },
        RuntimeToEditorRequest::SetSelection { request_id, expected_version, selection } =>
            runtime_transaction_outcome(st, request_id.0@, Seq::empty(), Some(selection),
                match expected_version { Some(v) => Some(DocVersion::spec_of(v.0)), None => None }),
    }
}

/// Deltas as editor changes; `None` when an offset does not fit in a `usize`.
fn protocol_changes_to_editor(changes: &Vec<TextDelta>) -> (r: Option<Vec<TextChange>>)
    ensures
        r is Some <==> deltas_fit(changes@),
        r matches Some(v) ==> changes_view(v@) == deltas_as_changes(changes@),
{
    let mut out: Vec<TextChange> = Vec::new();
    let mut i: usize = 0;
    while i < changes.len()
        invariant
            i <= changes@.len(),
            forall|k: int| 0 <= k < i ==> (#[trigger] changes@[k]).from <= usize::MAX && changes@[k].to <= usize::MAX,
            changes_view(out@) == deltas_as_changes(changes@.take(i as int)),
        decreases changes@.len() - i,
    {
        let d = &changes[i];
        if d.from > usize::MAX as u64 || d.to > usize::MAX as u64 {
            return None;
        }
        let ghost before = out@;
        out.push(TextChange::new(d.from as usize, d.to as usize, d.insert.as_str()));
        proof {
            assert(changes_view(out@) =~= changes_view(before).push(change_view(out@.last())));
            assert(deltas_as_changes(changes@.take(i + 1)) =~= deltas_as_changes(changes@.take(i as int)).push(
                (changes@[i as int].from as int, changes@[i as int].to as int, changes@[i as int].insert@)));
        }
        i = i + 1;
    }
    proof { assert(changes@.take(changes@.len() as int) =~= changes@); }
    Some(out)
}

/// Editor changes as deltas.
fn editor_changes_to_protocol(changes: &Vec<TextChange>) -> (r: Vec<TextDelta>)
    ensures deltas_view(r@) == changes_as_deltas(changes_view(changes@)),
{
    let ghost cs = changes_view(changes@);
    let mut out: Vec<TextDelta> = Vec::new();
    let mut i: usize = 0;
    while i < changes.len()
        invariant
            cs == changes_view(changes@),
            i <= changes@.len(),
            deltas_view(out@) == changes_as_deltas(cs.take(i as int)),
        decreases changes@.len() - i,
    {
        let c = &changes[i];
        let ghost before = out@;
        out.push(TextDelta::new(c.from as u64, c.to as u64, c.insert.as_str()));
        proof {
            assert(deltas_view(out@) =~= deltas_view(before).push(delta_view(out@.last())));
            assert(changes_as_deltas(cs.take(i + 1)) =~= changes_as_deltas(cs.take(i as int)).push(
                (cs[i as int].0 as u64, cs[i as int].1 as u64, cs[i as int].2)));
        }
        i = i + 1;
    }
    proof { assert(cs.take(changes@.len() as int) =~= cs); }
    out
}

fn line_range_of(p: Position) -> (r: LineRange)
    ensures r == line_of(p),
{
    LineRange::new(p.row, p.row.saturating_add(1))
}

/// The lines of both ends of the previous and the next selection, merged.
fn collect_dirty_lines_for_selection(previous: Selection, next: Selection) -> (r: Vec<LineRange>)
    ensures r@ == dirty_for_selection(previous, next),
{
    merge_line_ranges(vec![
        line_range_of(previous.anchor()),
        line_range_of(previous.active()),
        line_range_of(next.anchor()),
        line_range_of(next.active()),
    ])
}

/// The lines touched by applied changes, merged.
fn collect_dirty_lines_for_changes(previous: &EditorState, next: &EditorState, changes: &Vec<TextChange>) -> (r: Vec<LineRange>)
    requires
        super::transaction::ordered_ranges(changes_view(changes@)),
        super::transaction::inserted_bytes(changes_view(changes@)) <= usize::MAX,
    ensures r@ == dirty_for_changes(previous@.0, next@.0, changes_view(changes@)),
{
    let ghost cs = changes_view(changes@);
    let mut ranges: Vec<LineRange> = Vec::new();
    let mut i: usize = 0;
    while i < changes.len()
        invariant
            cs == changes_view(changes@),
            super::transaction::ordered_ranges(cs),
            super::transaction::inserted_bytes(cs) <= usize::MAX,
            i <= changes@.len(),
            ranges@ == cs.take(i as int).map_values(|c: ChangeView| change_lines(previous@.0, next@.0, cs, c)),
        decreases changes@.len() - i,
    {
        let c = &changes[i];
        let start = previous.buffer().position_at_or_before(c.from).row;
        let end_before = previous.buffer().position_at_or_before(c.to).row;
        let mapped = map_offset(c.to, changes);
        let len = next.len();
        let end_offset: usize = if mapped < len as u128 { mapped as usize } else { len };
        let end_after = next.buffer().position_at_or_before(end_offset).row;
        let last = if end_before > end_after { end_before } else { end_after };
        let ghost before = ranges@;
        ranges.push(LineRange::new(start, last.saturating_add(1)));
        proof {
            assert(cs[i as int] == change_view(changes@[i as int]));
            assert(cs.take(i + 1).map_values(|c: ChangeView| change_lines(previous@.0, next@.0, cs, c))
                =~= cs.take(i as int).map_values(|c: ChangeView| change_lines(previous@.0, next@.0, cs, c))
                    .push(change_lines(previous@.0, next@.0, cs, cs[i as int])));
        }
        i = i + 1;
    }
    proof { assert(cs.take(changes@.len() as int) =~= cs); }
    merge_line_ranges(ranges)
}

/// Whether a runtime request runs a transaction that counts the version up.
pub open spec fn request_bumps(st: (Seq<char>, Selection, u64), request: RuntimeToEditorRequest) -> bool {
    match request {
        RuntimeToEditorRequest::RequestSnapshot => false,
        RuntimeToEditorRequest::ApplyEdits { request_id, expected_version, changes, selection } =>
            deltas_fit(changes@) && transaction_bumps(st.0, st.1, st.2, deltas_as_changes(changes@), selection,
                Some(DocVersion::spec_of(expected_version.0))),
        RuntimeToEditorRequest::SetSelection { request_id, expected_version, selection } =>
            transaction_bumps(st.0, st.1, st.2, Seq::empty(), Some(selection),
                match expected_version { Some(v) => Some(DocVersion::spec_of(v.0)), None => None }),
    }
}

/// Applies a runtime transaction: the new state and an acknowledgement with
/// the new version and the event, or an error code with the current version.
fn apply_runtime_transaction(state: &mut EditorState, request_id: RuntimeRequestId, spec: TransactionSpec) -> (r: RuntimeResponse)
    requires
        transaction_bumps(old(state)@.0, old(state)@.1, old(state)@.2, changes_view(spec.changes@), spec.selection,
            spec.expected_version) ==> old(state)@.2 < u64::MAX,
    ensures
        ({
            let o = runtime_transaction_outcome(old(state)@, request_id.0@, changes_view(spec.changes@), spec.selection, spec.expected_version);
            &&& (final(state)@.0, final(state)@.1@, final(state)@.2) == o.0
            &&& response_view(r) == o.1
        }),
{
    let ghost st = state@;
    let ghost cs_in = changes_view(spec.changes@);
    let ghost sel_in = spec.selection;
    let ghost exp_in = spec.expected_version;
    proof { lemma_applied_changes_mappable(st.0, st.1, st.2, cs_in, sel_in, exp_in); }
    match apply_transaction(state, spec) {
        Ok(result) => {
            let event = event_from_transaction(state, &result);
            let version = result.state.version().get();
            *state = result.state;
            RuntimeResponse::Ack { request_id, version: DocumentVersion(version), event }
        },
        Err(ApplyError::VersionMismatch { current_version }) => RuntimeResponse::Error {
            request_id,
            code: RuntimeErrorCode::VersionMismatch,
            current_version: DocumentVersion(current_version.get()),
        },
        Err(_) => RuntimeResponse::Error {
            request_id,
            code: RuntimeErrorCode::InvalidRequest,
            current_version: DocumentVersion(state.version().get()),
        },
    }
}

/// The event of a successful transaction.
fn event_from_transaction(previous: &EditorState, result: &TransactionResult) -> (r: Option<EditorToRuntimeEvent>)
    requires
        super::transaction::ordered_ranges(changes_view(result.applied_changes@)),
        super::transaction::inserted_bytes(changes_view(result.applied_changes@)) <= usize::MAX,
    ensures
        (match r { Some(e) => Some(event_view(e)), None => None }) == transaction_event(previous@,
            (result.state@.0, result.state@.1@, result.state@.2, changes_view(result.applied_changes@),
                result.is_document_changed, result.is_selection_changed)),
{
    let next_selection = result.state.selection();
    proof {
        Selection::lemma_spec_new(result.state@.1@.0, result.state@.1@.1);
        crate::selection::lemma_selection_view_injective(next_selection,
            Selection::spec_new(result.state@.1@.0, result.state@.1@.1));
    }
    if result.is_document_changed {
        let dirty_lines = collect_dirty_lines_for_changes(previous, &result.state, &result.applied_changes);
        return Some(EditorToRuntimeEvent::Delta {
            version: DocumentVersion(result.state.version().get()),
            changes: editor_changes_to_protocol(&result.applied_changes),
            selection: next_selection,
            dirty_lines,
        });
    }
    if result.is_selection_changed {
        let dirty_lines = collect_dirty_lines_for_selection(previous.selection(), next_selection);
        return Some(EditorToRuntimeEvent::SelectionChanged {
            version: DocumentVersion(result.state.version().get()),
            selection: next_selection,
            dirty_lines,
        });
    }
    None
}

/// Handles a request from the runtime: a snapshot request is answered with
/// the state; edits (against the expected version) and selection changes
/// run as transactions, acknowledged with the new version and the event, or
/// refused with an error code and the current version.
pub fn dispatch_runtime_request(state: &mut EditorState, request: RuntimeToEditorRequest) -> (r: RuntimeResponse)
    requires request_bumps(old(state)@, request) ==> old(state)@.2 < u64::MAX,
    ensures
        ({
            let o = runtime_outcome(old(state)@, request);
            &&& (final(state)@.0, final(state)@.1@, final(state)@.2) == o.0
            &&& response_view(r) == o.1
        }),
{
    broadcast use DocVersion::lemma_spec_of;
    match request {
        RuntimeToEditorRequest::RequestSnapshot => RuntimeResponse::Snapshot(EditorToRuntimeEvent::Snapshot {
            version: DocumentVersion(state.version().get()),
            text: state.text(),
            selection: state.selection(),
        }),
        RuntimeToEditorRequest::ApplyEdits { request_id, expected_version, changes, selection } => {
            match protocol_changes_to_editor(&changes) {
                None => RuntimeResponse::Error {
                    request_id,
                    code: RuntimeErrorCode::InvalidRequest,
                    current_version: DocumentVersion(state.version().get()),
                },
                Some(changes) => apply_runtime_transaction(state, request_id, TransactionSpec {
                    changes,
                    selection,
                    meta: TransactionMeta::from_source(TransactionSource::Runtime),
                    expected_version: Some(DocVersion::from_u64(expected_version.get())),
                }),
            }
        },
        RuntimeToEditorRequest::SetSelection { request_id, expected_version, selection } => {
            let expected = match expected_version {
                Some(v) => Some(DocVersion::from_u64(v.get())),
                None => None,
            };
            let r = apply_runtime_transaction(state, request_id, TransactionSpec {
                changes: Vec::new(),
                selection: Some(selection),
                meta: TransactionMeta::from_source(TransactionSource::Runtime),
                expected_version: expected,
            });
            proof { assert(changes_view(Seq::<TextChange>::empty()) =~= Seq::<ChangeView>::empty()); }
            r
        },
    }
}

/// Applies a viewport update for the state's document and version.
pub fn dispatch_viewport_update(state: &EditorState, model: &mut ViewportModel, update: ViewportUpdate) -> (r: Option<EditorToRuntimeEvent>)
    ensures
        ({
            let n = crate::text::line_count(state@.0);
            let lines: u32 = if n > u32::MAX { u32::MAX } else { n as u32 };
            let next = super::viewport::next_snapshot(lines, update);
            &&& final(model)@ == Some(next)
            &&& old(model)@ == Some(next) ==> r is None
            &&& old(model)@ != Some(next) ==> (r matches Some(EditorToRuntimeEvent::ViewportInvalidated { version: v, dirty_lines: d, viewport: vp, reason: rs })
                && v.0 == state@.2 && d@ == super::viewport::dirty_spec(old(model)@, next) && vp == Some(next.viewport)
                && rs == super::viewport::reason_of(update.mutation))
        }),
{
    let count = state.buffer().line_count();
    let lines: u32 = if count > u32::MAX as u64 { u32::MAX } else { count as u32 };
    model.apply(DocumentVersion(state.version().get()), lines, update)
}

/// Law: a request for edits made against another version than the current
/// one is refused with a version mismatch that reports the current version,
/// and the state stays as it was.
pub proof fn law_stale_edits_refused(st: (Seq<char>, Selection, u64), request: RuntimeToEditorRequest)
    requires
        request matches RuntimeToEditorRequest::ApplyEdits { expected_version, changes, .. }
            && expected_version.0 != st.2 && deltas_fit(changes@),
    ensures ({
        let o = runtime_outcome(st, request);
        &&& o.0 == (st.0, st.1@, st.2)
        &&& o.1 matches ResponseView::Error(_, code, v) && code == RuntimeErrorCode::VersionMismatch && v == st.2
    }),
{
    broadcast use DocVersion::lemma_spec_of;
}

/// Law: a snapshot request leaves the state as it is and reports its text,
/// selection and version.
pub proof fn law_snapshot_is_read_only(st: (Seq<char>, Selection, u64))
    ensures
        runtime_outcome(st, RuntimeToEditorRequest::RequestSnapshot)
            == ((st.0, st.1@, st.2), ResponseView::Snapshot(EventView::Snapshot(st.2, st.0, st.1))),
{
}

/// Law: an acknowledged request reports the version of the new state, and
/// its event (if any) carries that version too.
pub proof fn law_ack_reports_new_version(st: (Seq<char>, Selection, u64), request: RuntimeToEditorRequest)
    ensures ({
        let o = runtime_outcome(st, request);
        o.1 matches ResponseView::Ack(_, v, ev) ==> v == o.0.2 && (ev matches Some(e) ==> (match e {
            EventView::Delta(ve, _, _, _) => ve == v,
            EventView::SelectionChanged(ve, _, _) => ve == v,
            _ => false,
        }))
    }),
{
}

} // verus!
