//! A static overview of the desktop window: open buffers, sidebar sections,
//! an editor preview and the status bar.

use vstd::prelude::*;

use crate::lines::strings_view;

verus! {

/// Summary of an open buffer (a tab).
#[derive(Debug, Clone, PartialEq, Eq)]
pub struct BufferSummary {
    /// Tab title.
    pub title: String,
    /// The tab is the active one.
    pub is_active: bool,
}

/// A sidebar section.
#[derive(Debug, Clone, PartialEq, Eq)]
pub struct SidebarSection {
    /// Section title.
    pub title: String,
    /// Entries.
    pub items: Vec<String>,
}

/// The status bar.
#[derive(Debug, Clone, PartialEq, Eq)]
pub struct StatusBarState {
    /// Editing mode.
    pub mode: String,
    /// Line ending style.
    pub line_ending: String,
    /// Encoding.
    pub encoding: String,
    /// Caret position text.
    pub cursor: String,
}

/// The overview state of the desktop window.
#[derive(Debug, Clone, PartialEq, Eq)]
pub struct DesktopAppState {
    /// Product name.
    pub product_name: String,
    /// Workspace name.
    pub workspace_name: String,
    /// Path of the active buffer.
    pub active_buffer: String,
    /// Open buffers.
    pub buffers: Vec<BufferSummary>,
    /// Sidebar sections.
    pub sidebar_sections: Vec<SidebarSection>,
    /// Lines shown in the editor preview.
    pub editor_preview: Vec<String>,
    /// The status bar.
    pub status_bar: StatusBarState,
}

fn buffer(title: &str, is_active: bool) -> (b: BufferSummary)
    ensures b.title@ == title@, b.is_active == is_active,
{
    BufferSummary { title: title.to_owned(), is_active }
}

fn text(s: &str) -> (r: String)
    ensures r@ == s@,
{
    s.to_owned()
}

impl DesktopAppState {
    /// The overview shown before a workspace is loaded: three buffers (the
    /// first active), an explorer and an open-editors section, a preview of
    /// ten lines and a default status bar.
    pub fn sample() -> (s: Self)
        ensures
            s.product_name@ == "zom"@,
            s.workspace_name@ == "zom"@,
            s.active_buffer@ == "crates/zom-core/src/lib.rs"@,
            s.buffers@.len() == 3,
            s.buffers@[0].title@ == "lib.rs"@ && s.buffers@[0].is_active,
            s.buffers@[1].title@ == "selection.rs"@ && !s.buffers@[1].is_active,
            s.buffers@[2].title@ == "input.rs"@ && !s.buffers@[2].is_active,
            s.sidebar_sections@.len() == 2,
            s.sidebar_sections@[0].title@ == "EXPLORER"@,
            strings_view(s.sidebar_sections@[0].items@) == seq!["crates"@, "apps"@, "docs"@, "Cargo.toml"@],
            s.sidebar_sections@[1].title@ == "OPEN EDITORS"@,
            strings_view(s.sidebar_sections@[1].items@) == seq!["lib.rs"@, "selection.rs"@, "input.rs"@],
            strings_view(s.editor_preview@) == seq![
                "//! `zom-core` 是整个工程共享的协议层。"@,
                "//! 这里只放跨 crate 都成立的基础类型、命令语义和输入协议。"@,
                ""@,
                "pub mod command;"@,
                "pub mod direction;"@,
                "pub mod ids;"@,
                "pub mod input;"@,
                "pub mod position;"@,
                "pub mod range;"@,
                "pub mod selection;"@,
            ],
            s.status_bar.mode@ == "NORMAL"@,
            s.status_bar.line_ending@ == "LF"@,
            s.status_bar.encoding@ == "UTF-8"@,
            s.status_bar.cursor@ == "Ln 10, Col 1"@,
    {
        let explorer = vec![text("crates"), text("apps"), text("docs"), text("Cargo.toml")];
        let open = vec![text("lib.rs"), text("selection.rs"), text("input.rs")];
        proof {
            assert(strings_view(explorer@) =~= seq!["crates"@, "apps"@, "docs"@, "Cargo.toml"@]);
            assert(strings_view(open@) =~= seq!["lib.rs"@, "selection.rs"@, "input.rs"@]);
        }
        let preview = vec![
            text("//! `zom-core` 是整个工程共享的协议层。"),
            text("//! 这里只放跨 crate 都成立的基础类型、命令语义和输入协议。"),
            text(""),
            text("pub mod command;"),
            text("pub mod direction;"),
            text("pub mod ids;"),
            text("pub mod input;"),
            text("pub mod position;"),
            text("pub mod range;"),
            text("pub mod selection;"),
        ];
        proof {
            assert(strings_view(preview@) =~= seq![
                "//! `zom-core` 是整个工程共享的协议层。"@,
                "//! 这里只放跨 crate 都成立的基础类型、命令语义和输入协议。"@,
                ""@,
                "pub mod command;"@,
                "pub mod direction;"@,
                "pub mod ids;"@,
                "pub mod input;"@,
                "pub mod position;"@,
                "pub mod range;"@,
                "pub mod selection;"@,
            ]);
        }
        DesktopAppState {
            product_name: text("zom"),
            workspace_name: text("zom"),
            active_buffer: text("crates/zom-core/src/lib.rs"),
            buffers: vec![buffer("lib.rs", true), buffer("selection.rs", false), buffer("input.rs", false)],
            sidebar_sections: vec![
                SidebarSection { title: text("EXPLORER"), items: explorer },
                SidebarSection { title: text("OPEN EDITORS"), items: open },
            ],
            editor_preview: preview,
            status_bar: StatusBarState {
                mode: text("NORMAL"),
                line_ending: text("LF"),
                encoding: text("UTF-8"),
                cursor: text("Ln 10, Col 1"),
            },
        }
    }
}

} // verus!
