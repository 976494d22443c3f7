//! The title bar and the tool bar.

use vstd::prelude::*;

verus! {

/// Icons of the title bar.
#[derive(Debug, Clone, Copy, PartialEq, Eq, Structural, Hash)]
pub enum TitleBarIcon {
    /// The settings.
    Settings,
}

/// The title bar.
#[derive(Debug, PartialEq, Eq)]
pub struct TitleBarState {
    /// Entries on the right.
    pub right_icons: Vec<TitleBarIcon>,
}

/// Icons of the tool bar.
#[derive(Debug, Clone, Copy, PartialEq, Eq, Structural, Hash)]
pub enum ToolBarIcon {
    /// The file tree.
    Files,
    /// Git.
    GitBranch,
    /// The outline.
    Outline,
    /// Search.
    Search,
    /// Language servers.
    LanguageServer,
    /// The terminal.
    Terminal,
    /// The debugger.
    Debug,
    /// Notifications.
    Notifications,
}

/// One tool bar entry.
#[derive(Debug, Clone, Copy, PartialEq, Eq, Structural, Hash)]
pub struct ToolBarEntry {
    /// Icon.
    pub icon: ToolBarIcon,
}

/// A tool bar item, named by its icon.
#[derive(Debug, Clone, Copy, PartialEq, Eq, Structural, Hash)]
pub struct ToolBarItem {
    /// Icon.
    pub icon: ToolBarIcon,
}

/// The tool bar.
#[derive(Debug, PartialEq, Eq)]
pub struct ToolBarState {
    /// Entries on the left.
    pub left_tools: Vec<ToolBarEntry>,
    /// Caret position text.
    pub cursor: String,
    /// Language of the text.
    pub language: String,
    /// Line ending style of the file.
    pub line_ending: String,
    /// Encoding of the file.
    pub encoding: String,
    /// Entries on the right.
    pub right_tools: Vec<ToolBarEntry>,
}

} // verus!
