//! Panes and their tabs.

use vstd::prelude::*;

use crate::lines::strings_view;

verus! {

/// The id of a pane.
#[derive(Debug, Clone, Copy, PartialEq, Eq, Structural, Hash)]
pub struct PaneId(pub u64);

impl PaneId {
    /// The id with number `value`.
    pub fn new(value: u64) -> (id: Self)
        ensures id.0 == value,
    {
        PaneId(value)
    }

    /// The number of the id.
    pub fn value(self) -> (v: u64)
        ensures v == self.0,
    {
        self.0
    }
}

/// The id of a buffer.
#[derive(Debug, Clone, Copy, PartialEq, Eq, Structural, Hash)]
pub struct BufferId(pub u64);

impl BufferId {
    /// The id with number `value`.
    pub fn new(value: u64) -> (id: Self)
        ensures id.0 == value,
    {
        BufferId(value)
    }

    /// The number of the id.
    pub fn value(self) -> (v: u64)
        ensures v == self.0,
    {
        self.0
    }
}

/// A tab of a pane.
#[derive(Debug, PartialEq, Eq)]
pub struct TabState {
    /// The buffer shown.
    pub buffer_id: BufferId,
    /// Title.
    pub title: String,
    /// Path of the file, relative to the workspace root.
    pub relative_path: String,
    /// The lines shown.
    pub buffer_lines: Vec<String>,
}

/// A tab as plain values: `(buffer id, title, path, lines)`.
pub type TabView = (u64, Seq<char>, Seq<char>, Seq<Seq<char>>);

/// The plain value of a tab.
pub open spec fn tab_view(t: TabState) -> TabView {
    (t.buffer_id.0, t.title@, t.relative_path@, strings_view(t.buffer_lines@))
}

/// The plain values of tabs.
pub open spec fn tabs_view(ts: Seq<TabState>) -> Seq<TabView> {
    ts.map_values(|t: TabState| tab_view(t))
}

/// A pane: tabs and the index of the active one.
#[derive(Debug, PartialEq, Eq)]
pub struct PaneState {
    /// Id.
    pub id: PaneId,
    /// Tabs, in order.
    pub tabs: Vec<TabState>,
    /// Index of the active tab, if any.
    pub active_tab_index: Option<usize>,
}

impl PaneState {
    /// The active tab, when the active index names one.
    pub fn active_tab(&self) -> (r: Option<&TabState>)
        ensures
            r is Some <==> (self.active_tab_index matches Some(i) && i < self.tabs@.len()),
            r matches Some(t) ==> *t == self.tabs@[self.active_tab_index->0 as int],
    {
        match self.active_tab_index {
            Some(i) => if i < self.tabs.len() { Some(&self.tabs[i]) } else { None },
            None => None,
        }
    }
}

} // verus!
