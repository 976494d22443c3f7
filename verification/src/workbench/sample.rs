//! A sample workbench state for previews.

use vstd::prelude::*;

use crate::focus::FocusTarget;

use super::desktop::{set_of, DesktopAppState};
use super::file_tree::{lemma_node_view, nodes_view, FileTreeNode, FileTreeNodeKind, FileTreeState, NodeView};
use super::pane::{PaneId, PaneState};
use super::tool_bar::{TitleBarIcon, TitleBarState, ToolBarEntry, ToolBarIcon, ToolBarState};

verus! {

/// A directory node value: not selected, not active.
pub open spec fn dir_view(name: Seq<char>, path: Seq<char>, is_expanded: bool, children: Seq<NodeView>) -> NodeView {
    NodeView {
        name,
        path,
        kind: FileTreeNodeKind::Directory,
        is_expanded,
        is_selected: false,
        is_active: false,
        children,
    }
}

/// A file node value: not expanded, selected or active.
pub open spec fn file_view(name: Seq<char>, path: Seq<char>) -> NodeView {
    NodeView {
        name,
        path,
        kind: FileTreeNodeKind::File,
        is_expanded: false,
        is_selected: false,
        is_active: false,
        children: Seq::empty(),
    }
}

/// The tree of the sample state: the workspace root, expanded, holding two
/// collapsed folders and the `crates` folder, expanded down to the sources
/// of the application crate.
pub open spec fn sample_root(workspace_name: Seq<char>) -> NodeView {
    dir_view(workspace_name, ""@, true, seq![
        dir_view(".github / workflows"@, ".github/workflows"@, false, Seq::empty()),
        dir_view("apps / zom-desktop"@, "apps/zom-desktop"@, false, Seq::empty()),
        dir_view("crates"@, "crates"@, true, seq![
            dir_view("zom-app"@, "crates/zom-app"@, true, seq![
                dir_view("src"@, "crates/zom-app/src"@, true, seq![
                    file_view("lib.rs"@, "crates/zom-app/src/lib.rs"@),
                    file_view("sample.rs"@, "crates/zom-app/src/sample.rs"@),
                    file_view("state.rs"@, "crates/zom-app/src/state.rs"@),
                    file_view("utils.rs"@, "crates/zom-app/src/utils.rs"@),
                ]),
                file_view("Cargo.toml"@, "crates/zom-app/Cargo.toml"@),
            ]),
            dir_view("zom-core"@, "crates/zom-core"@, false, Seq::empty()),
            dir_view("zom-gpui"@, "crates/zom-gpui"@, false, Seq::empty()),
        ]),
    ])
}

/// A directory node.
fn directory(name: &str, path: &str, is_expanded: bool, children: Vec<FileTreeNode>) -> (n: FileTreeNode)
    ensures n@ == dir_view(name@, path@, is_expanded, nodes_view(children@)),
{
    let n = FileTreeNode {
        name: name.to_owned(),
        path: path.to_owned(),
        kind: FileTreeNodeKind::Directory,
        is_expanded,
        is_selected: false,
        is_active: false,
        children,
    };
    proof { lemma_node_view(n); }
    n
}

/// A file node.
fn file(name: &str, path: &str) -> (n: FileTreeNode)
    ensures n@ == file_view(name@, path@),
{
    let n = FileTreeNode {
        name: name.to_owned(),
        path: path.to_owned(),
        kind: FileTreeNodeKind::File,
        is_expanded: false,
        is_selected: false,
        is_active: false,
        children: Vec::new(),
    };
    proof {
        lemma_node_view(n);
        assert(n@.children =~= Seq::<NodeView>::empty());
    }
    n
}

impl DesktopAppState {
    /// A sample state for previews: one expanded root named after the
    /// workspace holding a few folders and files, no tabs, the editor
    /// focused, the file tree shown, and a default tool bar.
    pub fn sample(workspace_name: &str) -> (s: Self)
        ensures
            s.file_tree.title@ == "EXPLORER"@,
            s.file_tree.roots_view() == seq![sample_root(workspace_name@)],
            s.pane.id.0 == 1,
            s.pane.tabs@.len() == 0,
            s.pane.active_tab_index is None,
            s.focused_target == FocusTarget::Editor,
            set_of(s.visible_panels@) == set![FocusTarget::FileTreePanel],
            s.project_name@ == workspace_name@,
            s.project_root@ == ""@,
            s.pending_focus_target is None,
            s.pending_ui_action is None,
            s.pending_file_open is None,
            s.title_bar.right_icons@ == seq![TitleBarIcon::Settings],
            s.tool_bar.left_tools@ == seq![
                ToolBarEntry { icon: ToolBarIcon::Files },
                ToolBarEntry { icon: ToolBarIcon::GitBranch },
                ToolBarEntry { icon: ToolBarIcon::Outline },
                ToolBarEntry { icon: ToolBarIcon::Search },
                ToolBarEntry { icon: ToolBarIcon::LanguageServer },
            ],
            s.tool_bar.right_tools@ == seq![
                ToolBarEntry { icon: ToolBarIcon::Terminal },
                ToolBarEntry { icon: ToolBarIcon::Debug },
                ToolBarEntry { icon: ToolBarIcon::Notifications },
            ],
            s.tool_bar.cursor@ == "1:1"@,
            s.tool_bar.language@ == "Rust"@,
            s.tool_bar.line_ending@ == "LF"@,
            s.tool_bar.encoding@ == "UTF-8"@,
    {
        let sources = vec![
            file("lib.rs", "crates/zom-app/src/lib.rs"),
            file("sample.rs", "crates/zom-app/src/sample.rs"),
            file("state.rs", "crates/zom-app/src/state.rs"),
            file("utils.rs", "crates/zom-app/src/utils.rs"),
        ];
        proof { assert(nodes_view(sources@) =~= seq![sources@[0]@, sources@[1]@, sources@[2]@, sources@[3]@]); }
        let src = directory("src", "crates/zom-app/src", true, sources);
        let app_items = vec![src, file("Cargo.toml", "crates/zom-app/Cargo.toml")];
        proof { assert(nodes_view(app_items@) =~= seq![app_items@[0]@, app_items@[1]@]); }
        let app = directory("zom-app", "crates/zom-app", true, app_items);
        let crate_items = vec![
            app,
            directory("zom-core", "crates/zom-core", false, Vec::new()),
            directory("zom-gpui", "crates/zom-gpui", false, Vec::new()),
        ];
        proof {
            assert(nodes_view(Seq::<FileTreeNode>::empty()) =~= Seq::<NodeView>::empty());
            assert(nodes_view(crate_items@) =~= seq![crate_items@[0]@, crate_items@[1]@, crate_items@[2]@]);
        }
        let crates = directory("crates", "crates", true, crate_items);
        let top = vec![
            directory(".github / workflows", ".github/workflows", false, Vec::new()),
            directory("apps / zom-desktop", "apps/zom-desktop", false, Vec::new()),
            crates,
        ];
        proof { assert(nodes_view(top@) =~= seq![top@[0]@, top@[1]@, top@[2]@]); }
        let root = directory(workspace_name, "", true, top);
        let roots = vec![root];
        proof {
            assert(nodes_view(roots@) =~= seq![roots@[0]@]);
            assert(roots@[0]@ =~= sample_root(workspace_name@));
        }
        let visible_panels = vec![FocusTarget::FileTreePanel];
        proof {
            assert(set_of(visible_panels@) =~= set![FocusTarget::FileTreePanel]) by {
                assert(visible_panels@[0] == FocusTarget::FileTreePanel);
            }
        }
        DesktopAppState {
            title_bar: TitleBarState { right_icons: vec![TitleBarIcon::Settings] },
            tool_bar: ToolBarState {
                left_tools: vec![
                    ToolBarEntry { icon: ToolBarIcon::Files },
                    ToolBarEntry { icon: ToolBarIcon::GitBranch },
                    ToolBarEntry { icon: ToolBarIcon::Outline },
                    ToolBarEntry { icon: ToolBarIcon::Search },
                    ToolBarEntry { icon: ToolBarIcon::LanguageServer },
                ],
                cursor: "1:1".to_owned(),
                language: "Rust".to_owned(),
                line_ending: "LF".to_owned(),
                encoding: "UTF-8".to_owned(),
                right_tools: vec![
                    ToolBarEntry { icon: ToolBarIcon::Terminal },
                    ToolBarEntry { icon: ToolBarIcon::Debug },
                    ToolBarEntry { icon: ToolBarIcon::Notifications },
                ],
            },
            file_tree: FileTreeState { title: "EXPLORER".to_owned(), roots },
            pane: PaneState { id: PaneId::new(1), tabs: Vec::new(), active_tab_index: None },
            focused_target: FocusTarget::Editor,
            visible_panels,
            project_name: workspace_name.to_owned(),
            project_root: "".to_owned(),
            pending_focus_target: None,
            pending_ui_action: None,
            pending_file_open: None,
        }
    }
}

} // verus!
