//! Logical focus targets of the workbench.

use vstd::prelude::*;

verus! {

/// The logical area that currently holds the focus.
#[derive(Debug, Clone, Copy, PartialEq, Eq, Structural, Hash)]
pub enum FocusTarget {
    /// The editor.
    Editor,
    /// The command palette.
    Palette,
    /// The settings.
    Setting,
    /// The file tree panel.
    FileTreePanel,
    /// The Git panel.
    GitPanel,
    /// The outline panel.
    OutlinePanel,
    /// The project-wide search panel.
    ProjectSearchPanel,
    /// The language servers panel.
    LanguageServersPanel,
    /// The terminal panel.
    TerminalPanel,
    /// The debug panel.
    DebugPanel,
    /// The notification panel.
    NotificationPanel,
}

/// Panels whose visibility the workbench manages.
pub open spec fn spec_is_visibility_managed(t: FocusTarget) -> bool {
    match t {
        FocusTarget::FileTreePanel | FocusTarget::GitPanel | FocusTarget::OutlinePanel
        | FocusTarget::ProjectSearchPanel | FocusTarget::LanguageServersPanel
        | FocusTarget::TerminalPanel | FocusTarget::DebugPanel
        | FocusTarget::NotificationPanel => true,
        _ => false,
    }
}

/// All focus targets that commands can address, in order.
pub open spec fn spec_all_targets() -> Seq<FocusTarget> {
    seq![FocusTarget::Editor, FocusTarget::Palette, FocusTarget::FileTreePanel,
        FocusTarget::GitPanel, FocusTarget::OutlinePanel, FocusTarget::ProjectSearchPanel,
        FocusTarget::LanguageServersPanel, FocusTarget::TerminalPanel,
        FocusTarget::DebugPanel, FocusTarget::NotificationPanel]
}

/// The panels whose visibility the workbench manages, in display order.
pub open spec fn spec_managed_panels() -> Seq<FocusTarget> {
    seq![FocusTarget::FileTreePanel, FocusTarget::GitPanel,
        FocusTarget::OutlinePanel, FocusTarget::ProjectSearchPanel,
        FocusTarget::LanguageServersPanel, FocusTarget::TerminalPanel,
        FocusTarget::DebugPanel, FocusTarget::NotificationPanel]
}

impl FocusTarget {
    /// All focus targets that commands can address.
    pub fn all() -> (v: Vec<FocusTarget>)
        ensures v@ == spec_all_targets(),
    {
        vec![FocusTarget::Editor, FocusTarget::Palette, FocusTarget::FileTreePanel,
            FocusTarget::GitPanel, FocusTarget::OutlinePanel, FocusTarget::ProjectSearchPanel,
            FocusTarget::LanguageServersPanel, FocusTarget::TerminalPanel,
            FocusTarget::DebugPanel, FocusTarget::NotificationPanel]
    }

    /// All panels whose visibility the workbench manages, in display order.
    pub fn visibility_managed_panels() -> (v: Vec<FocusTarget>)
        ensures
            v@ == spec_managed_panels(),
            forall|i: int| 0 <= i < v@.len() ==> spec_is_visibility_managed(#[trigger] v@[i]),
    {
        vec![FocusTarget::FileTreePanel, FocusTarget::GitPanel,
            FocusTarget::OutlinePanel, FocusTarget::ProjectSearchPanel,
            FocusTarget::LanguageServersPanel, FocusTarget::TerminalPanel,
            FocusTarget::DebugPanel, FocusTarget::NotificationPanel]
    }

    /// Whether this target is a workbench panel whose visibility is managed.
    pub fn is_visibility_managed_panel(self) -> (b: bool)
        ensures b == spec_is_visibility_managed(self),
    {
        match self {
            FocusTarget::FileTreePanel | FocusTarget::GitPanel | FocusTarget::OutlinePanel
            | FocusTarget::ProjectSearchPanel | FocusTarget::LanguageServersPanel
            | FocusTarget::TerminalPanel | FocusTarget::DebugPanel
            | FocusTarget::NotificationPanel => true,
            _ => false,
        }
    }

    /// Whether this panel is visible when the application starts.
    pub fn is_visible_by_default(self) -> (b: bool)
        ensures b == (self == FocusTarget::FileTreePanel),
    {
        match self {
            FocusTarget::FileTreePanel => true,
            _ => false,
        }
    }
}

} // verus!
