//! The file tree: nodes with expansion, selection and activation flags, and
//! keyboard navigation over the visible nodes.

use vstd::prelude::*;

verus! {

/// The kind of a file tree node.
#[derive(Debug, Clone, Copy, PartialEq, Eq, Structural, Hash)]
pub enum FileTreeNodeKind {
    /// A directory.
    Directory,
    /// A file.
    File,
}

/// One node of the file tree.
#[derive(Debug, PartialEq, Eq)]
pub struct FileTreeNode {
    /// Display name.
    pub name: String,
    /// Path relative to the workspace root, with `/` separators.
    pub path: String,
    /// Kind.
    pub kind: FileTreeNodeKind,
    /// The node is expanded.
    pub is_expanded: bool,
    /// The node is selected in the tree.
    pub is_selected: bool,
    /// The node is the active file.
    pub is_active: bool,
    /// Children, in display order.
    pub children: Vec<FileTreeNode>,
}

/// A file tree node as a plain value.
pub struct NodeView {
    pub name: Seq<char>,
    pub path: Seq<char>,
    pub kind: FileTreeNodeKind,
    pub is_expanded: bool,
    pub is_selected: bool,
    pub is_active: bool,
    pub children: Seq<NodeView>,
}

/// The plain value of a node.
pub open spec fn node_view(n: FileTreeNode) -> NodeView
    decreases n,
{
    NodeView {
        name: n.name@,
        path: n.path@,
        kind: n.kind,
        is_expanded: n.is_expanded,
        is_selected: n.is_selected,
        is_active: n.is_active,
        children: Seq::new(n.children@.len(), |i: int|
            if 0 <= i < n.children@.len() {
                proof {
                    assert(decreases_to!(n => n.children));
                    assert(decreases_to!(n.children => n.children@));
                    assert(decreases_to!(n.children@ => n.children@[i]));
                }
                node_view(n.children@[i])
            } else {
                vstd::pervasive::arbitrary()
            }),
    }
}

impl View for FileTreeNode {
    type V = NodeView;

    open spec fn view(&self) -> NodeView {
        node_view(*self)
    }
}

/// The plain values of nodes.
pub open spec fn nodes_view(ns: Seq<FileTreeNode>) -> Seq<NodeView> {
    Seq::new(ns.len(), |i: int| node_view(ns[i]))
}

/// The children of a node's value are the values of its children.
pub proof fn lemma_node_view(n: FileTreeNode)
    ensures
        n@.children == nodes_view(n.children@),
        n@.name == n.name@,
        n@.path == n.path@,
        n@.kind == n.kind,
        n@.is_expanded == n.is_expanded,
        n@.is_selected == n.is_selected,
        n@.is_active == n.is_active,
{
    assert(n@.children =~= nodes_view(n.children@));
}

// ---------------------------------------------------------------------------
// Toggling a directory
// ---------------------------------------------------------------------------

/// Toggles the first directory at `p` in pre-order; the flag tells whether
/// one was found.
pub open spec fn toggled(n: NodeView, p: Seq<char>) -> (NodeView, bool)
    decreases n, 0int,
{
    if n.path == p && n.kind == FileTreeNodeKind::Directory {
        (NodeView { is_expanded: !n.is_expanded, ..n }, true)
    } else {
        let r = toggled_from(n.children, p, 0);
        (NodeView { children: r.0, ..n }, r.1)
    }
}

/// Toggles the first directory at `p` among `cs[i..]` (in pre-order).
pub open spec fn toggled_from(cs: Seq<NodeView>, p: Seq<char>, i: int) -> (Seq<NodeView>, bool)
    decreases cs, cs.len() - i,
{
    if i < 0 || i >= cs.len() {
        (cs, false)
    } else {
        let r = toggled(cs[i], p);
        if r.1 { (cs.update(i, r.0), true) } else { toggled_from(cs, p, i + 1) }
    }
}

/// Whether two strings hold the same characters.
pub(crate) fn same_text(a: &str, b: &str) -> (r: bool)
    ensures r == (a@ == b@),
{
    a.to_owned() == b.to_owned()
}

/// A toggle that finds nothing changes nothing.
proof fn lemma_toggled_miss(n: NodeView, p: Seq<char>)
    ensures !toggled(n, p).1 ==> toggled(n, p).0 == n,
    decreases n, 0int,
{
    if !(n.path == p && n.kind == FileTreeNodeKind::Directory) {
        lemma_toggled_from_miss(n.children, p, 0);
    }
}

proof fn lemma_toggled_from_miss(cs: Seq<NodeView>, p: Seq<char>, i: int)
    ensures !toggled_from(cs, p, i).1 ==> toggled_from(cs, p, i).0 == cs,
    decreases cs, cs.len() - i,
{
    if 0 <= i < cs.len() {
        lemma_toggled_miss(cs[i], p);
        lemma_toggled_from_miss(cs, p, i + 1);
    }
}

/// Toggles the first directory at `path` under `node` (pre-order).
fn toggle_directory_node(node: &mut FileTreeNode, path: &str) -> (hit: bool)
    ensures (final(node)@, hit) == toggled(old(node)@, path@),
    decreases *old(node),
{
    proof { lemma_node_view(*node); }
    if same_text(node.path.as_str(), path) && node.kind == FileTreeNodeKind::Directory {
        node.is_expanded = !node.is_expanded;
        proof { lemma_node_view(*node); assert(node@.children =~= old(node)@.children); }
        return true;
    }
    let ghost old_view = old(node)@;
    let n = node.children.len();
    let mut i: usize = 0;
    while i < n
        invariant
            n == node.children@.len(),
            n == old(node).children@.len(),
            i <= n,
            node.name == old(node).name,
            node.path == old(node).path,
            node.kind == old(node).kind,
            node.is_expanded == old(node).is_expanded,
            node.is_selected == old(node).is_selected,
            node.is_active == old(node).is_active,
            old_view == node_view(*old(node)),
            !(old_view.path == path@ && old_view.kind == FileTreeNodeKind::Directory),
            forall|j: int| i <= j < n ==> node.children@[j] == old(node).children@[j],
            forall|j: int| 0 <= j < i ==> node_view(#[trigger] node.children@[j]) == node_view(old(node).children@[j]),
            toggled_from(old_view.children, path@, 0) == toggled_from(old_view.children, path@, i as int),
        decreases n - i,
    {
        proof {
            lemma_node_view(*old(node));
            assert(decreases_to!(*old(node) => old(node).children));
            assert(decreases_to!(old(node).children => old(node).children@));
            assert(decreases_to!(old(node).children@ => old(node).children@[i as int]));
        }
        let ghost before = node.children@;
        let hit = toggle_directory_node(&mut node.children[i], path);
        proof {
            lemma_node_view(*old(node));
            lemma_node_view(*node);
            lemma_toggled_miss(old_view.children[i as int], path@);
        }
        if hit {
            proof {
                assert(node@.children =~= old_view.children.update(i as int, node.children@[i as int]@));
            }
            return true;
        }
        i = i + 1;
    }
    proof {
        lemma_node_view(*old(node));
        lemma_node_view(*node);
        lemma_toggled_from_miss(old_view.children, path@, 0);
        assert(node@.children =~= old_view.children);
    }
    false
}

// ---------------------------------------------------------------------------
// Activating a file, selecting a node
// ---------------------------------------------------------------------------

/// Activates the file at `p`: exactly the files at `p` become active and
/// selected, every other node loses both flags, and each directory holding
/// such a file is expanded. The flag tells whether the subtree holds one.
pub open spec fn activated(n: NodeView, p: Seq<char>) -> (NodeView, bool)
    decreases n, 1int,
{
    let target = n.path == p && n.kind == FileTreeNodeKind::File;
    let contains = target || contains_from(n.children, p, 0);
    (NodeView {
        is_active: target,
        is_selected: target,
        is_expanded: if n.kind == FileTreeNodeKind::Directory && contains { true } else { n.is_expanded },
        children: Seq::new(n.children.len(), |i: int|
            if 0 <= i < n.children.len() {
                proof { assert(decreases_to!(n => n.children)); assert(decreases_to!(n.children => n.children[i])); }
                activated(n.children[i], p).0
            } else {
                vstd::pervasive::arbitrary()
            }),
        ..n
    }, contains)
}

/// Whether one of `cs[i..]` holds a file at `p`.
pub open spec fn contains_from(cs: Seq<NodeView>, p: Seq<char>, i: int) -> bool
    decreases cs, cs.len() - i,
{
    if i < 0 || i >= cs.len() {
        false
    } else {
        activated(cs[i], p).1 || contains_from(cs, p, i + 1)
    }
}

/// Selects exactly the nodes at `p`.
pub open spec fn selected_only(n: NodeView, p: Seq<char>) -> NodeView
    decreases n,
{
    NodeView {
        is_selected: n.path == p,
        children: Seq::new(n.children.len(), |i: int|
            if 0 <= i < n.children.len() {
                proof { assert(decreases_to!(n => n.children)); assert(decreases_to!(n.children => n.children[i])); }
                selected_only(n.children[i], p)
            } else {
                vstd::pervasive::arbitrary()
            }),
        ..n
    }
}

/// Activates the file at `path` under `node`; tells whether the subtree
/// holds it.
fn activate_file_node(node: &mut FileTreeNode, path: &str) -> (contains: bool)
    ensures (final(node)@, contains) == activated(old(node)@, path@),
    decreases *old(node),
{
    proof { lemma_node_view(*node); }
    let ghost old_view = old(node)@;
    let is_target = same_text(node.path.as_str(), path) && node.kind == FileTreeNodeKind::File;
    node.is_active = is_target;
    node.is_selected = is_target;
    let mut contains = is_target;
    let n = node.children.len();
    let mut i: usize = 0;
    while i < n
        invariant
            n == node.children@.len(),
            n == old(node).children@.len(),
            i <= n,
            node.name == old(node).name,
            node.path == old(node).path,
            node.kind == old(node).kind,
            node.is_expanded == old(node).is_expanded,
            node.is_selected == is_target,
            node.is_active == is_target,
            old_view == node_view(*old(node)),
            old_view.children == nodes_view(old(node).children@),
            is_target == (old_view.path == path@ && old_view.kind == FileTreeNodeKind::File),
            forall|j: int| i <= j < n ==> node.children@[j] == old(node).children@[j],
            forall|j: int| 0 <= j < i ==> node_view(#[trigger] node.children@[j]) == activated(old_view.children[j], path@).0,
            (is_target || contains_from(old_view.children, path@, 0)) == (contains || contains_from(old_view.children, path@, i as int)),
        decreases n - i,
    {
        proof {
            assert(decreases_to!(*old(node) => old(node).children));
            assert(decreases_to!(old(node).children => old(node).children@));
            assert(decreases_to!(old(node).children@ => old(node).children@[i as int]));
        }
        let hit = activate_file_node(&mut node.children[i], path);
        if hit {
            contains = true;
        }
        i = i + 1;
    }
    if node.kind == FileTreeNodeKind::Directory && contains {
        node.is_expanded = true;
    }
    proof {
        lemma_node_view(*node);
        assert(node@.children =~= activated(old_view, path@).0.children);
    }
    contains
}

/// Selects exactly the nodes at `path` under `node`.
fn select_only_node(node: &mut FileTreeNode, path: &str)
    ensures final(node)@ == selected_only(old(node)@, path@),
    decreases *old(node),
{
    proof { lemma_node_view(*node); }
    let ghost old_view = old(node)@;
    node.is_selected = same_text(node.path.as_str(), path);
    let n = node.children.len();
    let mut i: usize = 0;
    while i < n
        invariant
            n == node.children@.len(),
            n == old(node).children@.len(),
            i <= n,
            node.name == old(node).name,
            node.path == old(node).path,
            node.kind == old(node).kind,
            node.is_expanded == old(node).is_expanded,
            node.is_selected == (old_view.path == path@),
            node.is_active == old(node).is_active,
            old_view == node_view(*old(node)),
            old_view.children == nodes_view(old(node).children@),
            forall|j: int| i <= j < n ==> node.children@[j] == old(node).children@[j],
            forall|j: int| 0 <= j < i ==> node_view(#[trigger] node.children@[j]) == selected_only(old_view.children[j], path@),
        decreases n - i,
    {
        proof {
            assert(decreases_to!(*old(node) => old(node).children));
            assert(decreases_to!(old(node).children => old(node).children@));
            assert(decreases_to!(old(node).children@ => old(node).children@[i as int]));
        }
        select_only_node(&mut node.children[i], path);
        i = i + 1;
    }
    proof {
        lemma_node_view(*node);
        assert(node@.children =~= selected_only(old_view, path@).children);
    }
}

// ---------------------------------------------------------------------------
// Visible nodes and the selected node
// ---------------------------------------------------------------------------

/// A node as listed among the visible nodes.
#[derive(Debug, PartialEq, Eq)]
pub struct VisibleNode {
    /// Path.
    pub path: String,
    /// Kind.
    pub kind: FileTreeNodeKind,
    /// Path of the parent node, if any.
    pub parent_path: Option<String>,
    /// The node is expanded.
    pub is_expanded: bool,
    /// Path of the first child, if any.
    pub first_child_path: Option<String>,
}

/// A visible node as a plain value.
pub struct VisibleView {
    pub path: Seq<char>,
    pub kind: FileTreeNodeKind,
    pub parent_path: Option<Seq<char>>,
    pub is_expanded: bool,
    pub first_child_path: Option<Seq<char>>,
}

/// The plain value of an optional string.
pub open spec fn opt_view(o: Option<String>) -> Option<Seq<char>> {
    match o {
        Some(s) => Some(s@),
        None => None,
    }
}

/// The plain value of a visible node.
pub open spec fn visible_view(v: VisibleNode) -> VisibleView {
    VisibleView {
        path: v.path@,
        kind: v.kind,
        parent_path: opt_view(v.parent_path),
        is_expanded: v.is_expanded,
        first_child_path: opt_view(v.first_child_path),
    }
}

/// The plain values of visible nodes.
pub open spec fn visibles_view(vs: Seq<VisibleNode>) -> Seq<VisibleView> {
    vs.map_values(|v: VisibleNode| visible_view(v))
}

/// The listing entry of a node.
pub open spec fn entry_of(n: NodeView, parent: Option<Seq<char>>) -> VisibleView {
    VisibleView {
        path: n.path,
        kind: n.kind,
        parent_path: parent,
        is_expanded: n.is_expanded,
        first_child_path: if n.children.len() > 0 { Some(n.children[0].path) } else { None },
    }
}

/// The visible nodes of a subtree in pre-order: the node, then, for an
/// expanded directory, the visible nodes of each child.
pub open spec fn visible_of(n: NodeView, parent: Option<Seq<char>>) -> Seq<VisibleView>
    decreases n, 0int,
{
    if n.kind == FileTreeNodeKind::Directory && n.is_expanded {
        seq![entry_of(n, parent)] + visible_from(n.children, Some(n.path), 0)
    } else {
        seq![entry_of(n, parent)]
    }
}

/// The visible nodes of the subtrees `cs[i..]`.
pub open spec fn visible_from(cs: Seq<NodeView>, parent: Option<Seq<char>>, i: int) -> Seq<VisibleView>
    decreases cs, cs.len() - i,
{
    if i < 0 || i >= cs.len() {
        seq![]
    } else {
        visible_of(cs[i], parent) + visible_from(cs, parent, i + 1)
    }
}

/// The path of the first selected node of a subtree, in pre-order.
pub open spec fn selected_of(n: NodeView) -> Option<Seq<char>>
    decreases n, 0int,
{
    if n.is_selected { Some(n.path) } else { selected_from(n.children, 0) }
}

/// The path of the first selected node among the subtrees `cs[i..]`.
pub open spec fn selected_from(cs: Seq<NodeView>, i: int) -> Option<Seq<char>>
    decreases cs, cs.len() - i,
{
    if i < 0 || i >= cs.len() {
        None
    } else {
        match selected_of(cs[i]) {
            Some(p) => Some(p),
            None => selected_from(cs, i + 1),
        }
    }
}

/// Appends the visible nodes of `node` (whose parent is `parent`) to `out`.
fn collect_visible_nodes(node: &FileTreeNode, parent: Option<String>, out: &mut Vec<VisibleNode>)
    ensures visibles_view(final(out)@) == visibles_view(old(out)@) + visible_of(node@, opt_view(parent)),
    decreases *node,
{
    proof { lemma_node_view(*node); }
    let first_child_path = if node.children.len() > 0 { Some(node.children[0].path.clone()) } else { None };
    let ghost start = visibles_view(out@);
    let ghost before = out@;
    out.push(VisibleNode {
        path: node.path.clone(),
        kind: node.kind,
        parent_path: parent,
        is_expanded: node.is_expanded,
        first_child_path,
    });
    proof {
        lemma_node_view(node.children@[0]);
        assert(visibles_view(out@) =~= visibles_view(before).push(entry_of(node@, opt_view(parent))));
    }
    if node.kind == FileTreeNodeKind::Directory && node.is_expanded {
        let ghost cs = node@.children;
        let ghost par = Some(node.path@);
        let n = node.children.len();
        let mut i: usize = 0;
        while i < n
            invariant
                n == node.children@.len(),
                cs == nodes_view(node.children@),
                par == Some(node.path@),
                i <= n,
                visibles_view(out@) + visible_from(cs, par, i as int)
                    == start + seq![entry_of(node@, opt_view(parent))] + visible_from(cs, par, 0),
            decreases n - i,
        {
            proof {
                assert(decreases_to!(*node => node.children));
                assert(decreases_to!(node.children => node.children@));
                assert(decreases_to!(node.children@ => node.children@[i as int]));
            }
            let ghost mid = visibles_view(out@);
            collect_visible_nodes(&node.children[i], Some(node.path.clone()), out);
            proof {
                assert(visible_from(cs, par, i as int) == visible_of(cs[i as int], par) + visible_from(cs, par, i + 1));
                assert(visibles_view(out@) + visible_from(cs, par, i + 1)
                    =~= mid + visible_from(cs, par, i as int));
            }
            i = i + 1;
        }
        proof { assert(visibles_view(out@) =~= start + visible_of(node@, opt_view(parent))); }
    } else {
        proof { assert(visibles_view(out@) =~= start + visible_of(node@, opt_view(parent))); }
    }
}

/// The path of the first selected node under `node`, in pre-order.
fn find_selected_node_path(node: &FileTreeNode) -> (r: Option<String>)
    ensures opt_view(r) == selected_of(node@),
    decreases *node,
{
    proof { lemma_node_view(*node); }
    if node.is_selected {
        return Some(node.path.clone());
    }
    let n = node.children.len();
    let mut i: usize = 0;
    while i < n
        invariant
            n == node.children@.len(),
            node@.children == nodes_view(node.children@),
            !node@.is_selected,
            i <= n,
            selected_from(node@.children, 0) == selected_from(node@.children, i as int),
        decreases n - i,
    {
        proof {
            assert(decreases_to!(*node => node.children));
            assert(decreases_to!(node.children => node.children@));
            assert(decreases_to!(node.children@ => node.children@[i as int]));
        }
        let found = find_selected_node_path(&node.children[i]);
        proof {
            assert(node@.children[i as int] == node_view(node.children@[i as int]));
            assert(!node@.is_selected);
            assert(selected_of(node@) == selected_from(node@.children, 0));
        }
        if found.is_some() {
            return found;
        }
        i = i + 1;
    }
    None
}

// ---------------------------------------------------------------------------
// The tree state
// ---------------------------------------------------------------------------

/// The file tree as shown in its panel.
#[derive(Debug, PartialEq, Eq)]
pub struct FileTreeState {
    /// Panel title.
    pub title: String,
    /// Root nodes.
    pub roots: Vec<FileTreeNode>,
}

/// The roots after toggling the first directory at `p`.
pub open spec fn toggled_roots(rs: Seq<NodeView>, p: Seq<char>) -> Seq<NodeView> {
    toggled_from(rs, p, 0).0
}

/// The roots after activating the file at `p` in every root.
pub open spec fn activated_roots(rs: Seq<NodeView>, p: Seq<char>) -> Seq<NodeView> {
    Seq::new(rs.len(), |i: int| activated(rs[i], p).0)
}

/// The roots after selecting exactly the nodes at `p`.
pub open spec fn selected_roots(rs: Seq<NodeView>, p: Seq<char>) -> Seq<NodeView> {
    Seq::new(rs.len(), |i: int| selected_only(rs[i], p))
}

/// The visible nodes of the roots, in pre-order.
pub open spec fn visible_roots(rs: Seq<NodeView>) -> Seq<VisibleView> {
    visible_from(rs, None, 0)
}

/// The path of the first selected node, in pre-order.
pub open spec fn selected_path_roots(rs: Seq<NodeView>) -> Option<Seq<char>> {
    selected_from(rs, 0)
}

/// The index of the first visible node at `p`, scanning from `i`; -1 when
/// there is none.
pub open spec fn index_of_path(vs: Seq<VisibleView>, p: Seq<char>, i: int) -> int
    decreases vs.len() - i,
{
    if i < 0 || i >= vs.len() {
        -1
    } else if vs[i].path == p {
        i
    } else {
        index_of_path(vs, p, i + 1)
    }
}

/// The index of the selected node among the visible ones; -1 when none is.
pub open spec fn selected_index(rs: Seq<NodeView>) -> int {
    match selected_path_roots(rs) {
        Some(s) => index_of_path(visible_roots(rs), s, 0),
        None => -1,
    }
}

/// The visible node a selection move lands on: one step forward or back
/// from the selected node, staying within the list; with no visible
/// selection, the first node forward or the last node back.
pub open spec fn move_target(vs: Seq<VisibleView>, cur: int, forward: bool) -> int {
    if cur >= 0 {
        if forward {
            if cur + 1 < vs.len() { cur + 1 } else { vs.len() - 1 }
        } else {
            if cur > 0 { cur - 1 } else { 0 }
        }
    } else if forward {
        0
    } else {
        vs.len() - 1
    }
}

/// The roots after a selection move.
pub open spec fn moved_roots(rs: Seq<NodeView>, forward: bool) -> Seq<NodeView> {
    let vs = visible_roots(rs);
    if vs.len() == 0 {
        rs
    } else {
        selected_roots(rs, vs[move_target(vs, selected_index(rs), forward)].path)
    }
}

/// The selected visible node, or else the first visible node, which then
/// becomes the selected one.
pub open spec fn picked_roots(rs: Seq<NodeView>) -> (Seq<NodeView>, Option<VisibleView>) {
    let vs = visible_roots(rs);
    if vs.len() == 0 {
        (rs, None)
    } else if selected_index(rs) >= 0 {
        (rs, Some(vs[selected_index(rs)]))
    } else {
        (selected_roots(rs, vs[0].path), Some(vs[0]))
    }
}

/// The roots after expanding the picked directory, or selecting its first
/// child when it is expanded already.
pub open spec fn expanded_roots(rs: Seq<NodeView>) -> Seq<NodeView> {
    let (rs1, picked) = picked_roots(rs);
    match picked {
        None => rs1,
        Some(v) => if v.kind == FileTreeNodeKind::Directory {
            if !v.is_expanded {
                toggled_roots(rs1, v.path)
            } else {
                match v.first_child_path {
                    Some(c) => selected_roots(rs1, c),
                    None => rs1,
                }
            }
        } else {
            rs1
        },
    }
}

/// The roots after collapsing the picked directory, or selecting its parent.
pub open spec fn collapsed_roots(rs: Seq<NodeView>) -> Seq<NodeView> {
    let (rs1, picked) = picked_roots(rs);
    match picked {
        None => rs1,
        Some(v) => if v.kind == FileTreeNodeKind::Directory && v.is_expanded {
            toggled_roots(rs1, v.path)
        } else {
            match v.parent_path {
                Some(pp) => selected_roots(rs1, pp),
                None => rs1,
            }
        },
    }
}

/// The roots after making sure a visible node is selected, and whether they
/// changed: with no visible selection the first visible node is selected.
pub open spec fn ensured_roots(rs: Seq<NodeView>) -> (Seq<NodeView>, bool) {
    let vs = visible_roots(rs);
    if vs.len() == 0 || selected_index(rs) >= 0 {
        (rs, false)
    } else {
        (selected_roots(rs, vs[0].path), true)
    }
}

/// The path and kind of the selected node, when it is visible.
pub open spec fn selected_node_spec(rs: Seq<NodeView>) -> Option<(Seq<char>, FileTreeNodeKind)> {
    let i = selected_index(rs);
    if i >= 0 {
        Some((visible_roots(rs)[i].path, visible_roots(rs)[i].kind))
    } else {
        None
    }
}

/// The first visible node at `path`, if any.
fn position_of_path(vs: &Vec<VisibleNode>, path: &str) -> (r: Option<usize>)
    ensures
        r is None <==> index_of_path(visibles_view(vs@), path@, 0) < 0,
        r matches Some(i) ==> i == index_of_path(visibles_view(vs@), path@, 0) && i < vs@.len(),
{
    let ghost v = visibles_view(vs@);
    let mut i: usize = 0;
    while i < vs.len()
        invariant
            v == visibles_view(vs@),
            i <= vs@.len(),
            index_of_path(v, path@, 0) == index_of_path(v, path@, i as int),
        decreases vs@.len() - i,
    {
        if same_text(vs[i].path.as_str(), path) {
            return Some(i);
        }
        i = i + 1;
    }
    None
}

/// Index results are in range.
proof fn lemma_index_of_path(vs: Seq<VisibleView>, p: Seq<char>, i: int)
    requires i >= 0,
    ensures
        -1 <= index_of_path(vs, p, i) < vs.len(),
        index_of_path(vs, p, i) >= 0 ==> vs[index_of_path(vs, p, i)].path == p,
    decreases vs.len() - i,
{
    if i < vs.len() && vs[i].path != p {
        lemma_index_of_path(vs, p, i + 1);
    }
}

impl FileTreeState {
    /// The roots as plain values.
    pub open spec fn roots_view(&self) -> Seq<NodeView> {
        nodes_view(self.roots@)
    }

    /// Toggles the first directory at `relative_path` (in pre-order).
    pub fn toggle_directory(&mut self, relative_path: &str)
        ensures
            final(self).title == old(self).title,
            final(self).roots_view() == toggled_roots(old(self).roots_view(), relative_path@),
    {
        let ghost rs = self.roots_view();
        let n = self.roots.len();
        let mut i: usize = 0;
        while i < n
            invariant
                n == self.roots@.len(),
                i <= n,
                self.title == old(self).title,
                rs == old(self).roots_view(),
                toggled_from(rs, relative_path@, 0) == toggled_from(rs, relative_path@, i as int),
                self.roots_view() == rs,
            decreases n - i,
        {
            let hit = toggle_directory_node(&mut self.roots[i], relative_path);
            proof { lemma_toggled_miss(rs[i as int], relative_path@); }
            if hit {
                proof { assert(self.roots_view() =~= rs.update(i as int, self.roots@[i as int]@)); }
                return;
            }
            proof { assert(self.roots_view() =~= rs); }
            i = i + 1;
        }
    }

    /// Activates the file at `relative_path`: it becomes the only active and
    /// selected node, and the directories holding it are expanded.
    pub fn activate_file(&mut self, relative_path: &str)
        ensures
            final(self).title == old(self).title,
            final(self).roots_view() == activated_roots(old(self).roots_view(), relative_path@),
    {
        let ghost rs = self.roots_view();
        let n = self.roots.len();
        let mut i: usize = 0;
        while i < n
            invariant
                n == self.roots@.len(),
                i <= n,
                self.title == old(self).title,
                rs == old(self).roots_view(),
                forall|j: int| i <= j < n ==> node_view(#[trigger] self.roots@[j]) == rs[j],
                forall|j: int| 0 <= j < i ==> node_view(#[trigger] self.roots@[j]) == activated(rs[j], relative_path@).0,
            decreases n - i,
        {
            activate_file_node(&mut self.roots[i], relative_path);
            i = i + 1;
        }
        proof { assert(self.roots_view() =~= activated_roots(rs, relative_path@)); }
    }

    /// Selects exactly the nodes at `relative_path`.
    fn select_only(&mut self, relative_path: &str)
        ensures
            final(self).title == old(self).title,
            final(self).roots_view() == selected_roots(old(self).roots_view(), relative_path@),
    {
        let ghost rs = self.roots_view();
        let n = self.roots.len();
        let mut i: usize = 0;
        while i < n
            invariant
                n == self.roots@.len(),
                i <= n,
                self.title == old(self).title,
                rs == old(self).roots_view(),
                forall|j: int| i <= j < n ==> node_view(#[trigger] self.roots@[j]) == rs[j],
                forall|j: int| 0 <= j < i ==> node_view(#[trigger] self.roots@[j]) == selected_only(rs[j], relative_path@),
            decreases n - i,
        {
            select_only_node(&mut self.roots[i], relative_path);
            i = i + 1;
        }
        proof { assert(self.roots_view() =~= selected_roots(rs, relative_path@)); }
    }

    /// The path of the first selected node, in pre-order.
    fn selected_path(&self) -> (r: Option<String>)
        ensures opt_view(r) == selected_path_roots(self.roots_view()),
    {
        let ghost rs = self.roots_view();
        let n = self.roots.len();
        let mut i: usize = 0;
        while i < n
            invariant
                n == self.roots@.len(),
                rs == self.roots_view(),
                i <= n,
                selected_from(rs, 0) == selected_from(rs, i as int),
            decreases n - i,
        {
            let found = find_selected_node_path(&self.roots[i]);
            if found.is_some() {
                return found;
            }
            i = i + 1;
        }
        None
    }

    /// The visible nodes, in pre-order.
    fn visible_nodes(&self) -> (r: Vec<VisibleNode>)
        ensures visibles_view(r@) == visible_roots(self.roots_view()),
    {
        let ghost rs = self.roots_view();
        let mut out: Vec<VisibleNode> = Vec::new();
        let n = self.roots.len();
        let mut i: usize = 0;
        proof { assert(visibles_view(out@) =~= Seq::<VisibleView>::empty()); }
        while i < n
            invariant
                n == self.roots@.len(),
                rs == self.roots_view(),
                i <= n,
                visibles_view(out@) + visible_from(rs, None, i as int) == visible_from(rs, None, 0),
            decreases n - i,
        {
            let ghost mid = visibles_view(out@);
            collect_visible_nodes(&self.roots[i], None, &mut out);
            proof {
                assert(opt_view(None) == None::<Seq<char>>);
                assert(visibles_view(out@) + visible_from(rs, None, i + 1) =~= mid + visible_from(rs, None, i as int));
            }
            i = i + 1;
        }
        proof { assert(visibles_view(out@) =~= visible_from(rs, None, 0)); }
        out
    }

    /// The index of the selected node among `visible`, if it is visible.
    fn selected_visible_index(&self, visible: &Vec<VisibleNode>) -> (r: Option<usize>)
        requires visibles_view(visible@) == visible_roots(self.roots_view()),
        ensures
            r is None <==> selected_index(self.roots_view()) < 0,
            r matches Some(i) ==> i == selected_index(self.roots_view()) && i < visible@.len(),
    {
        match self.selected_path() {
            None => None,
            Some(path) => position_of_path(visible, path.as_str()),
        }
    }

    /// Moves the selection one visible node forward or back.
    fn move_selection(&mut self, forward: bool)
        ensures
            final(self).title == old(self).title,
            final(self).roots_view() == moved_roots(old(self).roots_view(), forward),
    {
        let visible = self.visible_nodes();
        if visible.len() == 0 {
            return;
        }
        let last = visible.len() - 1;
        let target = match self.selected_visible_index(&visible) {
            Some(current) => if forward {
                if current + 1 < visible.len() { current + 1 } else { last }
            } else {
                if current > 0 { current - 1 } else { 0 }
            },
            None => if forward { 0 } else { last },
        };
        self.select_only(visible[target].path.as_str());
    }

    /// Selects the next visible node (the first one when none is selected).
    pub fn select_next_visible(&mut self)
        ensures
            final(self).title == old(self).title,
            final(self).roots_view() == moved_roots(old(self).roots_view(), true),
    {
        self.move_selection(true);
    }

    /// Selects the previous visible node (the last one when none is selected).
    pub fn select_prev_visible(&mut self)
        ensures
            final(self).title == old(self).title,
            final(self).roots_view() == moved_roots(old(self).roots_view(), false),
    {
        self.move_selection(false);
    }

    /// The selected visible node, or else the first visible node, which then
    /// becomes selected.
    fn selected_visible_node_or_first(&mut self) -> (r: Option<VisibleNode>)
        ensures
            final(self).title == old(self).title,
            final(self).roots_view() == picked_roots(old(self).roots_view()).0,
            (match r { Some(v) => Some(visible_view(v)), None => None }) == picked_roots(old(self).roots_view()).1,
    {
        let mut visible = self.visible_nodes();
        if visible.len() == 0 {
            return None;
        }
        match self.selected_visible_index(&visible) {
            Some(i) => {
                let ghost vs = visibles_view(visible@);
                let node = visible.swap_remove(i);
                proof { assert(visible_view(node) == vs[i as int]); }
                Some(node)
            },
            None => {
                let ghost vs = visibles_view(visible@);
                let first = visible.swap_remove(0);
                proof { assert(visible_view(first) == vs[0]); }
                self.select_only(first.path.as_str());
                Some(first)
            },
        }
    }

    /// Expands the selected directory, or, when it is expanded, selects its
    /// first child.
    pub fn expand_or_descend_selected(&mut self)
        ensures
            final(self).title == old(self).title,
            final(self).roots_view() == expanded_roots(old(self).roots_view()),
    {
        let selected = match self.selected_visible_node_or_first() {
            None => { return; },
            Some(node) => node,
        };
        if selected.kind == FileTreeNodeKind::Directory {
            if !selected.is_expanded {
                self.toggle_directory(selected.path.as_str());
            } else {
                match selected.first_child_path {
                    Some(child) => self.select_only(child.as_str()),
                    None => {},
                }
            }
        }
    }

    /// Collapses the selected directory, or, when it is collapsed or a file,
    /// selects its parent.
    pub fn collapse_or_ascend_selected(&mut self)
        ensures
            final(self).title == old(self).title,
            final(self).roots_view() == collapsed_roots(old(self).roots_view()),
    {
        let selected = match self.selected_visible_node_or_first() {
            None => { return; },
            Some(node) => node,
        };
        if selected.kind == FileTreeNodeKind::Directory && selected.is_expanded {
            self.toggle_directory(selected.path.as_str());
            return;
        }
        match selected.parent_path {
            Some(parent) => self.select_only(parent.as_str()),
            None => {},
        }
    }

    /// The path and kind of the selected node, when it is visible.
    pub fn selected_node(&self) -> (r: Option<(String, FileTreeNodeKind)>)
        ensures
            (match r { Some(x) => Some((x.0@, x.1)), None => None }) == selected_node_spec(self.roots_view()),
    {
        let mut visible = self.visible_nodes();
        match self.selected_visible_index(&visible) {
            None => None,
            Some(i) => {
                let ghost vs = visibles_view(visible@);
                let node = visible.swap_remove(i);
                proof { assert(visible_view(node) == vs[i as int]); }
                Some((node.path, node.kind))
            },
        }
    }

    /// Makes sure a visible node is selected: with no visible selection the
    /// first visible node is selected. Tells whether anything changed.
    pub fn ensure_selection(&mut self) -> (changed: bool)
        ensures
            final(self).title == old(self).title,
            (final(self).roots_view(), changed) == ensured_roots(old(self).roots_view()),
    {
        let visible = self.visible_nodes();
        if visible.len() == 0 {
            return false;
        }
        if self.selected_visible_index(&visible).is_some() {
            return false;
        }
        self.select_only(visible[0].path.as_str());
        true
    }
}

// ---------------------------------------------------------------------------
// Laws
// ---------------------------------------------------------------------------

proof fn lemma_toggle_twice(n: NodeView, p: Seq<char>)
    ensures toggled(toggled(n, p).0, p) == (n, toggled(n, p).1),
    decreases n, 0int,
{
    if n.path == p && n.kind == FileTreeNodeKind::Directory {
        assert(toggled(n, p).0 =~= NodeView { is_expanded: !n.is_expanded, ..n });
    } else {
        lemma_toggle_from_twice(n.children, p, 0);
    }
}

proof fn lemma_toggle_from_twice(cs: Seq<NodeView>, p: Seq<char>, i: int)
    ensures
        toggled_from(toggled_from(cs, p, i).0, p, i) == (cs, toggled_from(cs, p, i).1),
        toggled_from(cs, p, i).0.len() == cs.len(),
        forall|j: int| 0 <= j < i ==> #[trigger] toggled_from(cs, p, i).0[j] == cs[j],
    decreases cs, cs.len() - i,
{
    if 0 <= i < cs.len() {
        let r = toggled(cs[i], p);
        lemma_toggled_miss(cs[i], p);
        if r.1 {
            lemma_toggle_twice(cs[i], p);
            let cs2 = cs.update(i, r.0);
            assert(cs2[i] == r.0);
            assert(cs2.update(i, cs[i]) =~= cs);
        } else {
            lemma_toggle_from_twice(cs, p, i + 1);
        }
    }
}

/// Law: toggling the same directory twice gives the tree back.
pub proof fn law_toggle_directory_twice(roots: Seq<NodeView>, p: Seq<char>)
    ensures toggled_roots(toggled_roots(roots, p), p) == roots,
{
    lemma_toggle_from_twice(roots, p, 0);
}

proof fn lemma_selection_keeps_visible(n: NodeView, p: Seq<char>, parent: Option<Seq<char>>)
    ensures visible_of(selected_only(n, p), parent) == visible_of(n, parent),
    decreases n, 0int,
{
    let m = selected_only(n, p);
    if n.children.len() > 0 {
        assert(m.children[0] == selected_only(n.children[0], p));
    }
    assert(entry_of(m, parent) == entry_of(n, parent));
    lemma_selection_keeps_visible_from(n.children, p, Some(n.path), 0);
    assert(m.children =~= Seq::new(n.children.len(), |i: int| selected_only(n.children[i], p)));
}

proof fn lemma_selection_keeps_visible_from(cs: Seq<NodeView>, p: Seq<char>, parent: Option<Seq<char>>, i: int)
    ensures visible_from(Seq::new(cs.len(), |k: int| selected_only(cs[k], p)), parent, i) == visible_from(cs, parent, i),
    decreases cs, cs.len() - i,
{
    if 0 <= i < cs.len() {
        lemma_selection_keeps_visible(cs[i], p, parent);
        lemma_selection_keeps_visible_from(cs, p, parent, i + 1);
    }
}

/// Law: selecting nodes changes nothing of what is visible.
pub proof fn law_selection_keeps_visible_nodes(roots: Seq<NodeView>, p: Seq<char>)
    ensures visible_roots(selected_roots(roots, p)) == visible_roots(roots),
{
    lemma_selection_keeps_visible_from(roots, p, None, 0);
}

/// The children of a selected-only subtree.
pub open spec fn selected_children(cs: Seq<NodeView>, p: Seq<char>) -> Seq<NodeView> {
    Seq::new(cs.len(), |k: int| selected_only(cs[k], p))
}

proof fn lemma_selected_only_path(n: NodeView, p: Seq<char>)
    ensures selected_of(selected_only(n, p)) matches Some(q) ==> q == p,
    decreases n, 0int,
{
    let m = selected_only(n, p);
    assert(m.children =~= selected_children(n.children, p));
    lemma_selected_only_path_from(n.children, p, 0);
}

proof fn lemma_selected_only_path_from(cs: Seq<NodeView>, p: Seq<char>, i: int)
    ensures selected_from(selected_children(cs, p), i) matches Some(q) ==> q == p,
    decreases cs, cs.len() - i,
{
    if 0 <= i < cs.len() {
        lemma_selected_only_path(cs[i], p);
        lemma_selected_only_path_from(cs, p, i + 1);
    }
}

proof fn lemma_select_visible(n: NodeView, p: Seq<char>, parent: Option<Seq<char>>, k: int)
    requires
        0 <= k < visible_of(n, parent).len(),
        visible_of(n, parent)[k].path == p,
    ensures selected_of(selected_only(n, p)) == Some(p),
    decreases n, 0int,
{
    let m = selected_only(n, p);
    assert(m.children =~= selected_children(n.children, p));
    if k > 0 && n.path != p {
        lemma_select_visible_from(n.children, p, Some(n.path), 0, k - 1);
    }
}

proof fn lemma_select_visible_from(cs: Seq<NodeView>, p: Seq<char>, parent: Option<Seq<char>>, i: int, k: int)
    requires
        0 <= i,
        0 <= k < visible_from(cs, parent, i).len(),
        visible_from(cs, parent, i)[k].path == p,
    ensures selected_from(selected_children(cs, p), i) == Some(p),
    decreases cs, cs.len() - i,
{
    let v = visible_of(cs[i], parent);
    lemma_selected_only_path(cs[i], p);
    if k < v.len() {
        lemma_select_visible(cs[i], p, parent, k);
    } else {
        lemma_select_visible_from(cs, p, parent, i + 1, k - v.len());
    }
}

/// Law: selecting a visible path makes it the selected path.
pub proof fn law_select_visible_path(roots: Seq<NodeView>, k: int)
    requires 0 <= k < visible_roots(roots).len(),
    ensures
        selected_path_roots(selected_roots(roots, visible_roots(roots)[k].path)) == Some(visible_roots(roots)[k].path),
{
    let p = visible_roots(roots)[k].path;
    assert(selected_roots(roots, p) =~= selected_children(roots, p));
    lemma_select_visible_from(roots, p, None, 0, k);
}

/// Law: after a selection move on a tree with visible nodes, the selected
/// path is the path of the node the move lands on, and what is visible is
/// unchanged.
pub proof fn law_move_selects_target(roots: Seq<NodeView>, forward: bool)
    requires visible_roots(roots).len() > 0,
    ensures ({
        let vs = visible_roots(roots);
        let t = move_target(vs, selected_index(roots), forward);
        &&& 0 <= t < vs.len()
        &&& selected_path_roots(moved_roots(roots, forward)) == Some(vs[t].path)
        &&& visible_roots(moved_roots(roots, forward)) == vs
    }),
{
    let vs = visible_roots(roots);
    match selected_path_roots(roots) {
        Some(s) => lemma_index_of_path(vs, s, 0),
        None => {},
    }
    let t = move_target(vs, selected_index(roots), forward);
    law_select_visible_path(roots, t);
    law_selection_keeps_visible_nodes(roots, vs[t].path);
}

/// Law: after `ensure_selection` on a tree with visible nodes, a visible
/// node is selected; when it had to choose, it chose the first one.
pub proof fn law_ensure_selection_selects_visible(roots: Seq<NodeView>)
    requires visible_roots(roots).len() > 0,
    ensures ({
        let (after, changed) = ensured_roots(roots);
        &&& selected_index(after) >= 0
        &&& changed ==> selected_path_roots(after) == Some(visible_roots(roots)[0].path)
        &&& !changed ==> after == roots
    }),
{
    let vs = visible_roots(roots);
    if selected_index(roots) < 0 {
        law_select_visible_path(roots, 0);
        law_selection_keeps_visible_nodes(roots, vs[0].path);
        lemma_index_of_path(vs, vs[0].path, 0);
    }
}

/// How many nodes of a subtree sit at path `p`.
pub open spec fn path_count(n: NodeView, p: Seq<char>) -> nat
    decreases n, 0int,
{
    (if n.path == p { 1nat } else { 0nat }) + path_count_from(n.children, p, 0)
}

/// How many nodes of the subtrees `cs[i..]` sit at path `p`.
pub open spec fn path_count_from(cs: Seq<NodeView>, p: Seq<char>, i: int) -> nat
    decreases cs, cs.len() - i,
{
    if i < 0 || i >= cs.len() {
        0
    } else {
        path_count(cs[i], p) + path_count_from(cs, p, i + 1)
    }
}

/// A toggle that hits found a node at the path.
proof fn lemma_toggle_hit_counts(n: NodeView, p: Seq<char>)
    ensures toggled(n, p).1 ==> path_count(n, p) >= 1,
    decreases n, 0int,
{
    if !(n.path == p && n.kind == FileTreeNodeKind::Directory) {
        lemma_toggle_hit_counts_from(n.children, p, 0);
    }
}

proof fn lemma_toggle_hit_counts_from(cs: Seq<NodeView>, p: Seq<char>, i: int)
    ensures toggled_from(cs, p, i).1 ==> path_count_from(cs, p, i) >= 1,
    decreases cs, cs.len() - i,
{
    if 0 <= i < cs.len() {
        lemma_toggle_hit_counts(cs[i], p);
        lemma_toggle_hit_counts_from(cs, p, i + 1);
    }
}

/// A visible node at the path is a node at the path.
proof fn lemma_visible_counts(n: NodeView, parent: Option<Seq<char>>, p: Seq<char>, k: int)
    requires 0 <= k < visible_of(n, parent).len(), visible_of(n, parent)[k].path == p,
    ensures path_count(n, p) >= 1,
    decreases n, 0int,
{
    if k > 0 && n.path != p {
        lemma_visible_counts_from(n.children, Some(n.path), p, 0, k - 1);
    }
}

proof fn lemma_visible_counts_from(cs: Seq<NodeView>, parent: Option<Seq<char>>, p: Seq<char>, i: int, k: int)
    requires 0 <= i, 0 <= k < visible_from(cs, parent, i).len(), visible_from(cs, parent, i)[k].path == p,
    ensures path_count_from(cs, p, i) >= 1,
    decreases cs, cs.len() - i,
{
    let a = visible_of(cs[i], parent);
    if k < a.len() {
        lemma_visible_counts(cs[i], parent, p, k);
    } else {
        lemma_visible_counts_from(cs, parent, p, i + 1, k - a.len());
    }
}

/// The visible nodes and the selection of the subtrees from `j` on do not
/// depend on an earlier subtree.
proof fn lemma_from_after_update(cs: Seq<NodeView>, parent: Option<Seq<char>>, i: int, x: NodeView, j: int)
    requires 0 <= i < j, i < cs.len(),
    ensures
        visible_from(cs.update(i, x), parent, j) == visible_from(cs, parent, j),
        selected_from(cs.update(i, x), j) == selected_from(cs, j),
    decreases cs.len() - j,
{
    if j < cs.len() {
        assert(cs.update(i, x)[j] == cs[j]);
        lemma_from_after_update(cs, parent, i, x, j + 1);
    }
}

/// The visible node at index `k` is the first one at path `p` and a
/// collapsed directory.
pub open spec fn first_collapsed_at(vs: Seq<VisibleView>, p: Seq<char>, k: int) -> bool {
    &&& 0 <= k < vs.len()
    &&& vs[k].path == p
    &&& forall|j: int| 0 <= j < k ==> (#[trigger] vs[j]).path != p
    &&& vs[k].kind == FileTreeNodeKind::Directory
    &&& !vs[k].is_expanded
}

/// The visible node at index `k` is the first one at path `p` and an
/// expanded directory.
pub open spec fn first_expanded_at(vs: Seq<VisibleView>, p: Seq<char>, k: int) -> bool {
    &&& 0 <= k < vs.len()
    &&& vs[k].path == p
    &&& forall|j: int| 0 <= j < k ==> (#[trigger] vs[j]).path != p
    &&& vs[k].kind == FileTreeNodeKind::Directory
    &&& vs[k].is_expanded
}

/// Toggling the only node at `p`, a visible collapsed directory, expands it
/// where it is listed and keeps the selection.
proof fn lemma_toggle_visible(n: NodeView, parent: Option<Seq<char>>, p: Seq<char>, k: int)
    requires
        path_count(n, p) <= 1,
        first_collapsed_at(visible_of(n, parent), p, k),
    ensures
        toggled(n, p).1,
        first_expanded_at(visible_of(toggled(n, p).0, parent), p, k),
        selected_of(toggled(n, p).0) == selected_of(n),
    decreases n, 0int,
{
    let v = visible_of(n, parent);
    assert(v[0] == entry_of(n, parent));
    if n.path == p {
        assert(k == 0);
        let t = toggled(n, p).0;
        assert(visible_of(t, parent)[0] == entry_of(t, parent));
    } else {
        assert(n.kind == FileTreeNodeKind::Directory && n.is_expanded);
        let rest = visible_from(n.children, Some(n.path), 0);
        assert(v == seq![entry_of(n, parent)] + rest);
        assert forall|j: int| 0 <= j < k - 1 implies (#[trigger] rest[j]).path != p by {
            assert(rest[j] == v[j + 1]);
        }
        assert(first_collapsed_at(rest, p, k - 1)) by {
            assert(rest[k - 1] == v[k]);
        }
        lemma_toggle_visible_from(n.children, Some(n.path), p, 0, k - 1);
        let r = toggled_from(n.children, p, 0);
        let t = toggled(n, p).0;
        assert(t == NodeView { children: r.0, ..n });
        let rest2 = visible_from(r.0, Some(n.path), 0);
        let v2 = visible_of(t, parent);
        assert(v2 == seq![entry_of(t, parent)] + rest2);
        assert(v2[0].path == n.path);
        assert forall|j: int| 0 <= j < k implies (#[trigger] v2[j]).path != p by {
            if j > 0 { assert(v2[j] == rest2[j - 1]); }
        }
        assert(v2[k] == rest2[k - 1]);
    }
}

proof fn lemma_toggle_visible_from(cs: Seq<NodeView>, parent: Option<Seq<char>>, p: Seq<char>, i: int, k: int)
    requires
        0 <= i,
        path_count_from(cs, p, i) <= 1,
        first_collapsed_at(visible_from(cs, parent, i), p, k),
    ensures
        toggled_from(cs, p, i).1,
        first_expanded_at(visible_from(toggled_from(cs, p, i).0, parent, i), p, k),
        selected_from(toggled_from(cs, p, i).0, i) == selected_from(cs, i),
    decreases cs, cs.len() - i,
{
    let v = visible_from(cs, parent, i);
    let a = visible_of(cs[i], parent);
    let rest = visible_from(cs, parent, i + 1);
    assert(v == a + rest);
    if k < a.len() {
        assert forall|j: int| 0 <= j < k implies (#[trigger] a[j]).path != p by {
            assert(a[j] == v[j]);
        }
        assert(a[k] == v[k]);
        lemma_toggle_visible(cs[i], parent, p, k);
        let t = toggled(cs[i], p).0;
        let cs2 = cs.update(i, t);
        assert(toggled_from(cs, p, i).0 == cs2);
        lemma_from_after_update(cs, parent, i, t, i + 1);
        assert(cs2[i] == t);
        let a2 = visible_of(t, parent);
        let v2 = visible_from(cs2, parent, i);
        assert(v2 == a2 + rest);
        assert forall|j: int| 0 <= j < k implies (#[trigger] v2[j]).path != p by {
            assert(v2[j] == a2[j]);
        }
        assert(v2[k] == a2[k]);
    } else {
        assert forall|j: int| 0 <= j < k - a.len() implies (#[trigger] rest[j]).path != p by {
            assert(rest[j] == v[j + a.len()]);
        }
        assert(rest[k - a.len()] == v[k]);
        lemma_visible_counts_from(cs, parent, p, i + 1, k - a.len());
        lemma_toggle_hit_counts(cs[i], p);
        lemma_toggled_miss(cs[i], p);
        assert(!toggled(cs[i], p).1);
        lemma_toggle_visible_from(cs, parent, p, i + 1, k - a.len());
        let r = toggled_from(cs, p, i + 1);
        lemma_toggle_from_twice(cs, p, i + 1);
        assert(r.0[i] == cs[i]);
        let rest2 = visible_from(r.0, parent, i + 1);
        let v2 = visible_from(r.0, parent, i);
        assert(v2 == a + rest2);
        assert forall|j: int| 0 <= j < k implies (#[trigger] v2[j]).path != p by {
            if j < a.len() {
                assert(v2[j] == a[j]);
                assert(a[j] == v[j]);
            } else {
                assert(v2[j] == rest2[j - a.len()]);
            }
        }
        assert(v2[k] == rest2[k - a.len()]);
    }
}

/// The first visible node at a path is found by `index_of_path`.
proof fn lemma_index_of_first(vs: Seq<VisibleView>, p: Seq<char>, i: int, k: int)
    requires
        0 <= i <= k < vs.len(),
        vs[k].path == p,
        forall|j: int| 0 <= j < k ==> (#[trigger] vs[j]).path != p,
    ensures index_of_path(vs, p, i) == k,
    decreases k - i,
{
    if i < k {
        lemma_index_of_first(vs, p, i + 1, k);
    }
}

/// Law: expanding the selected node, a collapsed directory that is the only
/// node at its path, and then collapsing the selected node gives the tree
/// back.
pub proof fn law_expand_then_collapse(roots: Seq<NodeView>)
    requires
        selected_index(roots) >= 0,
        visible_roots(roots)[selected_index(roots)].kind == FileTreeNodeKind::Directory,
        !visible_roots(roots)[selected_index(roots)].is_expanded,
        path_count_from(roots, visible_roots(roots)[selected_index(roots)].path, 0) <= 1,
    ensures collapsed_roots(expanded_roots(roots)) == roots,
{
    let vs = visible_roots(roots);
    let p = selected_path_roots(roots)->0;
    let k = selected_index(roots);
    lemma_index_of_path(vs, p, 0);
    lemma_index_first_is_first(vs, p, 0);
    assert(vs[k].path == p);
    assert(first_collapsed_at(vs, p, k));
    lemma_toggle_visible_from(roots, None, p, 0, k);
    let rs1 = toggled_roots(roots, p);
    assert(expanded_roots(roots) == rs1);
    let vs1 = visible_roots(rs1);
    assert(first_expanded_at(vs1, p, k));
    assert(selected_path_roots(rs1) == Some(p));
    lemma_index_of_first(vs1, p, 0, k);
    assert(selected_index(rs1) == k);
    law_toggle_directory_twice(roots, p);
}

/// Nothing before the index `index_of_path` finds is at the path.
proof fn lemma_index_first_is_first(vs: Seq<VisibleView>, p: Seq<char>, i: int)
    requires 0 <= i,
    ensures
        index_of_path(vs, p, i) >= 0 ==> forall|j: int| i <= j < index_of_path(vs, p, i) ==> (#[trigger] vs[j]).path != p,
    decreases vs.len() - i,
{
    if i < vs.len() && vs[i].path != p {
        lemma_index_first_is_first(vs, p, i + 1);
    }
}


/// Whether the parent of the visible node `k` is listed before it.
pub open spec fn parent_listed_before(vs: Seq<VisibleView>, k: int) -> bool {
    exists|j: int| 0 <= j < k && Some(#[trigger] vs[j].path) == vs[k].parent_path
}

proof fn lemma_parent_listed(n: NodeView, parent: Option<Seq<char>>, k: int)
    requires 0 <= k < visible_of(n, parent).len(),
    ensures
        visible_of(n, parent)[k].parent_path == parent || parent_listed_before(visible_of(n, parent), k),
    decreases n, 0int,
{
    let vs = visible_of(n, parent);
    if k > 0 {
        let rest = visible_from(n.children, Some(n.path), 0);
        assert(vs == seq![entry_of(n, parent)] + rest);
        lemma_parent_listed_from(n.children, Some(n.path), 0, k - 1);
        assert(vs[k] == rest[k - 1]);
        if rest[k - 1].parent_path == Some(n.path) {
            assert(vs[0].path == n.path);
        } else {
            let j = choose|j: int| 0 <= j < k - 1 && Some(#[trigger] rest[j].path) == rest[k - 1].parent_path;
            assert(vs[j + 1] == rest[j]);
        }
    }
}

proof fn lemma_parent_listed_from(cs: Seq<NodeView>, parent: Option<Seq<char>>, i: int, k: int)
    requires 0 <= i, 0 <= k < visible_from(cs, parent, i).len(),
    ensures
        visible_from(cs, parent, i)[k].parent_path == parent || parent_listed_before(visible_from(cs, parent, i), k),
    decreases cs, cs.len() - i,
{
    let vs = visible_from(cs, parent, i);
    let v = visible_of(cs[i], parent);
    let rest = visible_from(cs, parent, i + 1);
    assert(vs == v + rest);
    if k < v.len() {
        lemma_parent_listed(cs[i], parent, k);
        assert(vs[k] == v[k]);
        if v[k].parent_path != parent {
            let j = choose|j: int| 0 <= j < k && Some(#[trigger] v[j].path) == v[k].parent_path;
            assert(vs[j] == v[j]);
        }
    } else {
        lemma_parent_listed_from(cs, parent, i + 1, k - v.len());
        assert(vs[k] == rest[k - v.len()]);
        if rest[k - v.len()].parent_path != parent {
            let j = choose|j: int| 0 <= j < k - v.len() && Some(#[trigger] rest[j].path) == rest[k - v.len()].parent_path;
            assert(vs[j + v.len()] == rest[j]);
        }
    }
}

/// Law: every visible node with a parent has that parent listed before it
/// among the visible nodes; the roots have none.
pub proof fn law_visible_parent_listed(roots: Seq<NodeView>, k: int)
    requires 0 <= k < visible_roots(roots).len(),
    ensures
        visible_roots(roots)[k].parent_path is None || parent_listed_before(visible_roots(roots), k),
{
    lemma_parent_listed_from(roots, None, 0, k);
}

/// Law: "collapse or ascend" on a selected node that is a file or a
/// collapsed directory selects its parent, and what is visible stays as it
/// was; on such a root it changes nothing.
pub proof fn law_collapse_or_ascend_selects_parent(roots: Seq<NodeView>)
    requires selected_index(roots) >= 0,
    ensures ({
        let vs = visible_roots(roots);
        let v = vs[selected_index(roots)];
        let after = collapsed_roots(roots);
        &&& !(v.kind == FileTreeNodeKind::Directory && v.is_expanded) ==> visible_roots(after) == vs
        &&& !(v.kind == FileTreeNodeKind::Directory && v.is_expanded) && v.parent_path is Some
            ==> selected_path_roots(after) == v.parent_path
        &&& !(v.kind == FileTreeNodeKind::Directory && v.is_expanded) && v.parent_path is None ==> after == roots
    }),
{
    let vs = visible_roots(roots);
    let s = selected_path_roots(roots)->0;
    lemma_index_of_path(vs, s, 0);
    let k = selected_index(roots);
    let v = vs[k];
    if !(v.kind == FileTreeNodeKind::Directory && v.is_expanded) {
        if let Some(pp) = v.parent_path {
            law_visible_parent_listed(roots, k);
            let j = choose|j: int| 0 <= j < k && Some(#[trigger] vs[j].path) == vs[k].parent_path;
            law_select_visible_path(roots, j);
            law_selection_keeps_visible_nodes(roots, pp);
        }
    }
}

/// Whether the first child of the visible node `k`, when it is an expanded
/// directory with children, is listed right after it.
pub open spec fn first_child_follows(vs: Seq<VisibleView>, k: int) -> bool {
    (vs[k].kind == FileTreeNodeKind::Directory && vs[k].is_expanded && vs[k].first_child_path is Some)
        ==> k + 1 < vs.len() && Some(vs[k + 1].path) == vs[k].first_child_path
}

proof fn lemma_visible_of_head(n: NodeView, parent: Option<Seq<char>>)
    ensures visible_of(n, parent).len() >= 1, visible_of(n, parent)[0] == entry_of(n, parent),
{
}

proof fn lemma_first_child_follows(n: NodeView, parent: Option<Seq<char>>, k: int)
    requires 0 <= k < visible_of(n, parent).len(),
    ensures first_child_follows(visible_of(n, parent), k),
    decreases n, 0int,
{
    let vs = visible_of(n, parent);
    if n.kind == FileTreeNodeKind::Directory && n.is_expanded {
        let rest = visible_from(n.children, Some(n.path), 0);
        assert(vs == seq![entry_of(n, parent)] + rest);
        if k == 0 {
            if n.children.len() > 0 {
                lemma_visible_of_head(n.children[0], Some(n.path));
                assert(rest == visible_of(n.children[0], Some(n.path)) + visible_from(n.children, Some(n.path), 1));
                assert(vs[1] == rest[0]);
            }
        } else {
            lemma_first_child_follows_from(n.children, Some(n.path), 0, k - 1);
            assert(vs[k] == rest[k - 1]);
            if k < rest.len() {
                assert(vs[k + 1] == rest[k]);
            }
        }
    }
}

proof fn lemma_first_child_follows_from(cs: Seq<NodeView>, parent: Option<Seq<char>>, i: int, k: int)
    requires 0 <= i, 0 <= k < visible_from(cs, parent, i).len(),
    ensures first_child_follows(visible_from(cs, parent, i), k),
    decreases cs, cs.len() - i,
{
    let vs = visible_from(cs, parent, i);
    let v = visible_of(cs[i], parent);
    let rest = visible_from(cs, parent, i + 1);
    assert(vs == v + rest);
    if k < v.len() {
        lemma_first_child_follows(cs[i], parent, k);
        assert(vs[k] == v[k]);
        if k + 1 < v.len() {
            assert(vs[k + 1] == v[k + 1]);
        }
    } else {
        lemma_first_child_follows_from(cs, parent, i + 1, k - v.len());
        assert(vs[k] == rest[k - v.len()]);
        if k - v.len() + 1 < rest.len() {
            assert(vs[k + 1] == rest[k - v.len() + 1]);
        }
    }
}

/// Law: "expand or descend" on a selected expanded directory with children
/// selects its first child, the node listed right after it, and what is
/// visible stays as it was; on a selected file it changes nothing.
pub proof fn law_expand_or_descend_selects_first_child(roots: Seq<NodeView>)
    requires selected_index(roots) >= 0,
    ensures ({
        let vs = visible_roots(roots);
        let k = selected_index(roots);
        let v = vs[k];
        let after = expanded_roots(roots);
        &&& (v.kind == FileTreeNodeKind::Directory && v.is_expanded && v.first_child_path is Some) ==> {
            &&& k + 1 < vs.len()
            &&& selected_path_roots(after) == Some(vs[k + 1].path)
            &&& visible_roots(after) == vs
        }
        &&& v.kind == FileTreeNodeKind::File ==> after == roots
    }),
{
    let vs = visible_roots(roots);
    let s = selected_path_roots(roots)->0;
    lemma_index_of_path(vs, s, 0);
    let k = selected_index(roots);
    let v = vs[k];
    if v.kind == FileTreeNodeKind::Directory && v.is_expanded && v.first_child_path is Some {
        lemma_first_child_follows_from(roots, None, 0, k);
        law_select_visible_path(roots, k + 1);
        law_selection_keeps_visible_nodes(roots, vs[k + 1].path);
    }
}

} // verus!
