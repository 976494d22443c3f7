//! The file tree of a workspace, built from a listing of its directories:
//! which entries are left out, the relative path of each node, and the order
//! of siblings (directories first, each group by lower-cased name).

use vstd::prelude::*;

use crate::text::{chars_of, string_push};
use super::file_tree::{lemma_node_view, nodes_view, same_text, FileTreeNode, FileTreeNodeKind, FileTreeState, NodeView};
use super::utils::{file_name, file_name_of, opt_string_view};

verus! {

/// What a directory listing says an entry is.
#[derive(Debug, Clone, Copy, PartialEq, Eq, Structural, Hash)]
pub enum ListedKind {
    /// A directory.
    Directory,
    /// A regular file.
    File,
    /// Anything else (a link, a device, an entry whose type could not be read).
    Other,
}

/// One entry of a directory listing; a directory carries the listing of its
/// own entries (empty where it was not read).
#[derive(Debug)]
pub struct ListedEntry {
    /// The entry's name.
    pub name: String,
    /// What the entry is.
    pub kind: ListedKind,
    /// The entries of a directory.
    pub children: Vec<ListedEntry>,
}

// ---------------------------------------------------------------------------
// Entries left out, and paths
// ---------------------------------------------------------------------------

/// Entries that the tree leaves out: version control and build output
/// directories, Finder metadata files, and anything that is neither a
/// directory nor a regular file.
pub open spec fn is_skipped(name: Seq<char>, kind: ListedKind) -> bool {
    match kind {
        ListedKind::Directory => name == ".git"@ || name == "node_modules"@ || name == "target"@,
        ListedKind::File => name == ".DS_Store"@,
        ListedKind::Other => true,
    }
}

/// Whether the tree leaves an entry out (a directory left out need not be
/// read).
pub fn is_skipped_entry(name: &str, kind: ListedKind) -> (r: bool)
    ensures r == is_skipped(name@, kind),
{
    match kind {
        ListedKind::Directory => same_text(name, ".git") || same_text(name, "node_modules") || same_text(name, "target"),
        ListedKind::File => same_text(name, ".DS_Store"),
        ListedKind::Other => true,
    }
}

/// A path with every backslash turned into `/`.
pub open spec fn unix_path(s: Seq<char>) -> Seq<char> {
    s.map_values(|c: char| if c == '\\' { '/' } else { c })
}

/// The relative path of entry `name` in the directory at `dir` (the root
/// being the empty path).
pub open spec fn child_path(dir: Seq<char>, name: Seq<char>) -> Seq<char> {
    if dir.len() == 0 {
        unix_path(name)
    } else {
        dir + seq!['/'] + unix_path(name)
    }
}

/// The relative path of an entry.
fn child_path_of(dir: &str, name: &str) -> (r: String)
    ensures r@ == child_path(dir@, name@),
{
    let d = chars_of(dir);
    let n = chars_of(name);
    let mut out = String::new();
    let mut i: usize = 0;
    while i < d.len()
        invariant i <= d@.len(), out@ == d@.take(i as int),
        decreases d@.len() - i,
    {
        string_push(&mut out, d[i]);
        proof { assert(d@.take(i + 1) =~= d@.take(i as int).push(d@[i as int])); }
        i = i + 1;
    }
    proof { assert(d@.take(d@.len() as int) =~= d@); }
    if d.len() > 0 {
        string_push(&mut out, '/');
    }
    let ghost base = out@;
    let mut j: usize = 0;
    while j < n.len()
        invariant j <= n@.len(), out@ == base + unix_path(n@.take(j as int)),
        decreases n@.len() - j,
    {
        let c = if n[j] == '\\' { '/' } else { n[j] };
        string_push(&mut out, c);
        proof { assert(unix_path(n@.take(j + 1)) =~= unix_path(n@.take(j as int)).push(c)); }
        j = j + 1;
    }
    proof {
        assert(n@.take(n@.len() as int) =~= n@);
        assert(out@ =~= child_path(dir@, name@));
    }
    out
}

// ---------------------------------------------------------------------------
// Ordering siblings
// ---------------------------------------------------------------------------

/// The lower-cased form of a text, as `str::to_lowercase` gives it.
pub uninterp spec fn lowercase_of(s: Seq<char>) -> Seq<char>;

/// `str::to_lowercase`. Claimed: the result is `lowercase_of` of the
/// argument; what Unicode's lower-case mapping gives is not stated.
#[verifier::external_body]
fn lowercase(s: &str) -> (r: String)
    ensures r@ == lowercase_of(s@),
{
    s.to_lowercase()
}

/// The order of `String`: character by character by code point, a proper
/// prefix before the longer text.
pub open spec fn text_lt(a: Seq<char>, b: Seq<char>) -> bool
    decreases a.len(),
{
    if a.len() == 0 {
        b.len() > 0
    } else if b.len() == 0 {
        false
    } else if a[0] != b[0] {
        (a[0] as u32) < (b[0] as u32)
    } else {
        text_lt(a.drop_first(), b.drop_first())
    }
}

/// `a` comes before `b` in text order.
fn text_less(a: &Vec<char>, b: &Vec<char>) -> (r: bool)
    ensures r == text_lt(a@, b@),
{
    let mut i: usize = 0;
    proof {
        assert(a@.skip(0) =~= a@);
        assert(b@.skip(0) =~= b@);
    }
    while i < a.len() && i < b.len()
        invariant
            i <= a@.len(),
            i <= b@.len(),
            text_lt(a@, b@) == text_lt(a@.skip(i as int), b@.skip(i as int)),
        decreases a@.len() - i,
    {
        proof {
            assert(a@.skip(i as int)[0] == a@[i as int]);
            assert(b@.skip(i as int)[0] == b@[i as int]);
        }
        if a[i] != b[i] {
            return (a[i] as u32) < (b[i] as u32);
        }
        proof {
            assert(a@.skip(i as int).drop_first() =~= a@.skip(i + 1));
            assert(b@.skip(i as int).drop_first() =~= b@.skip(i + 1));
        }
        i = i + 1;
    }
    i == a.len() && i < b.len()
}

/// The sort key of a node: its lower-cased name.
pub open spec fn name_key(n: NodeView) -> Seq<char> {
    lowercase_of(n.name)
}

/// Where an item of key `k` goes among items with keys `keys[i..]`, placed
/// after every item whose key is not above `k`: the first index whose key
/// is above `k`, or the end.
pub open spec fn insertion_point(keys: Seq<Seq<char>>, k: Seq<char>, i: int) -> int
    decreases keys.len() - i,
{
    if i < 0 || i >= keys.len() {
        keys.len() as int
    } else if text_lt(k, keys[i]) {
        i
    } else {
        insertion_point(keys, k, i + 1)
    }
}

/// The sort keys of nodes.
pub open spec fn name_keys(s: Seq<NodeView>) -> Seq<Seq<char>> {
    s.map_values(|n: NodeView| name_key(n))
}

/// The nodes in the order of their lower-cased names; nodes with equal keys
/// keep their order: each node in turn goes after every earlier node whose
/// key is not above its own.
pub open spec fn sorted_by_name(s: Seq<NodeView>) -> Seq<NodeView>
    decreases s.len(),
{
    if s.len() == 0 {
        s
    } else {
        let r = sorted_by_name(s.drop_last());
        r.insert(insertion_point(name_keys(r), name_key(s.last()), 0), s.last())
    }
}

/// Insertion points are in range.
proof fn lemma_insertion_point(keys: Seq<Seq<char>>, k: Seq<char>, i: int)
    requires 0 <= i <= keys.len(),
    ensures i <= insertion_point(keys, k, i) <= keys.len(),
    decreases keys.len() - i,
{
    if i < keys.len() && !text_lt(k, keys[i]) {
        lemma_insertion_point(keys, k, i + 1);
    }
}

/// The plain values of keys.
pub open spec fn keys_view(keys: Seq<Vec<char>>) -> Seq<Seq<char>> {
    keys.map_values(|v: Vec<char>| v@)
}

/// Where a key goes among sorted keys.
fn find_insertion_point(keys: &Vec<Vec<char>>, k: &Vec<char>) -> (p: usize)
    ensures
        p == insertion_point(keys_view(keys@), k@, 0),
        p <= keys@.len(),
{
    let ghost ks = keys_view(keys@);
    let mut i: usize = 0;
    while i < keys.len()
        invariant
            ks == keys_view(keys@),
            i <= keys@.len(),
            insertion_point(ks, k@, 0) == insertion_point(ks, k@, i as int),
        decreases keys@.len() - i,
    {
        if text_less(k, &keys[i]) {
            return i;
        }
        i = i + 1;
    }
    i
}

/// Adds a node to nodes kept in name order, with their keys beside them.
fn insert_by_name(out: &mut Vec<FileTreeNode>, keys: &mut Vec<Vec<char>>, node: FileTreeNode, Ghost(s): Ghost<Seq<NodeView>>)
    requires
        nodes_view(old(out)@) == sorted_by_name(s),
        keys_view(old(keys)@) == name_keys(nodes_view(old(out)@)),
    ensures
        nodes_view(final(out)@) == sorted_by_name(s.push(node@)),
        keys_view(final(keys)@) == name_keys(nodes_view(final(out)@)),
{
    let k = chars_of(lowercase(node.name.as_str()).as_str());
    let p = find_insertion_point(keys, &k);
    let ghost v = node@;
    proof {
        assert(v.name == node.name@) by { super::file_tree::lemma_node_view(node); }
        assert(s.push(v).drop_last() =~= s);
        lemma_insertion_point(keys_view(keys@), k@, 0);
    }
    out.insert(p, node);
    keys.insert(p, k);
    proof {
        assert(nodes_view(out@) =~= nodes_view(old(out)@).insert(p as int, v));
        assert(name_key(v) == k@);
        assert(keys_view(keys@) =~= keys_view(old(keys)@).insert(p as int, k@));
        assert(name_keys(nodes_view(out@)) =~= name_keys(nodes_view(old(out)@)).insert(p as int, name_key(v)));
    }
}

// ---------------------------------------------------------------------------
// Building the tree
// ---------------------------------------------------------------------------

/// The nodes of the directories kept among `es[..i]`, in listing order, each
/// collapsed and with its children built from its own listing.
pub open spec fn kept_dirs(es: Seq<ListedEntry>, dir: Seq<char>, i: int) -> Seq<NodeView>
    decreases es, 0int, i,
{
    if i <= 0 || i > es.len() {
        Seq::empty()
    } else {
        let prev = kept_dirs(es, dir, i - 1);
        let e = es[i - 1];
        if e.kind == ListedKind::Directory && !is_skipped(e.name@, e.kind) {
            let p = child_path(dir, e.name@);
            proof {
                assert(decreases_to!(es => es[i - 1]));
                assert(decreases_to!(es[i - 1] => es[i - 1].children));
                assert(decreases_to!(es[i - 1].children => es[i - 1].children@));
            }
            prev.push(NodeView {
                name: e.name@,
                path: p,
                kind: FileTreeNodeKind::Directory,
                is_expanded: false,
                is_selected: false,
                is_active: false,
                children: listed_nodes(e.children@, p),
            })
        } else {
            prev
        }
    }
}

/// The nodes of the files kept among `es[..i]`, in listing order.
pub open spec fn kept_files(es: Seq<ListedEntry>, dir: Seq<char>, i: int) -> Seq<NodeView>
    decreases i,
{
    if i <= 0 || i > es.len() {
        Seq::empty()
    } else {
        let prev = kept_files(es, dir, i - 1);
        let e = es[i - 1];
        if e.kind == ListedKind::File && !is_skipped(e.name@, e.kind) {
            prev.push(NodeView {
                name: e.name@,
                path: child_path(dir, e.name@),
                kind: FileTreeNodeKind::File,
                is_expanded: false,
                is_selected: false,
                is_active: false,
                children: Seq::empty(),
            })
        } else {
            prev
        }
    }
}

/// The children of the directory at `dir` listed as `es`: the kept
/// directories, then the kept files, each group in the order of lower-cased
/// names.
pub open spec fn listed_nodes(es: Seq<ListedEntry>, dir: Seq<char>) -> Seq<NodeView>
    decreases es, 1int, 0int,
{
    sorted_by_name(kept_dirs(es, dir, es.len() as int)) + sorted_by_name(kept_files(es, dir, es.len() as int))
}

/// Builds the children of the directory at `dir` from its listing.
fn build_children(entries: &Vec<ListedEntry>, dir: &str) -> (r: Vec<FileTreeNode>)
    ensures nodes_view(r@) == listed_nodes(entries@, dir@),
    decreases entries@,
{
    let mut dirs: Vec<FileTreeNode> = Vec::new();
    let mut dir_keys: Vec<Vec<char>> = Vec::new();
    let mut files: Vec<FileTreeNode> = Vec::new();
    let mut file_keys: Vec<Vec<char>> = Vec::new();
    proof {
        assert(nodes_view(dirs@) =~= sorted_by_name(kept_dirs(entries@, dir@, 0)));
        assert(keys_view(dir_keys@) =~= name_keys(nodes_view(dirs@)));
        assert(nodes_view(files@) =~= sorted_by_name(kept_files(entries@, dir@, 0)));
        assert(keys_view(file_keys@) =~= name_keys(nodes_view(files@)));
    }
    let mut i: usize = 0;
    while i < entries.len()
        invariant
            i <= entries@.len(),
            nodes_view(dirs@) == sorted_by_name(kept_dirs(entries@, dir@, i as int)),
            keys_view(dir_keys@) == name_keys(nodes_view(dirs@)),
            nodes_view(files@) == sorted_by_name(kept_files(entries@, dir@, i as int)),
            keys_view(file_keys@) == name_keys(nodes_view(files@)),
        decreases entries@.len() - i,
    {
        let e = &entries[i];
        let skipped = is_skipped_entry(e.name.as_str(), e.kind);
        if !skipped && e.kind == ListedKind::Directory {
            let path = child_path_of(dir, e.name.as_str());
            proof {
                assert(decreases_to!(entries@ => entries@[i as int]));
                assert(decreases_to!(entries@[i as int] => entries@[i as int].children));
                assert(decreases_to!(entries@[i as int].children => entries@[i as int].children@));
            }
            let children = build_children(&e.children, path.as_str());
            let node = FileTreeNode {
                name: e.name.clone(),
                path,
                kind: FileTreeNodeKind::Directory,
                is_expanded: false,
                is_selected: false,
                is_active: false,
                children,
            };
            proof {
                lemma_node_view(node);
                assert(kept_dirs(entries@, dir@, i + 1) =~= kept_dirs(entries@, dir@, i as int).push(node@));
            }
            insert_by_name(&mut dirs, &mut dir_keys, node, Ghost(kept_dirs(entries@, dir@, i as int)));
        } else if !skipped && e.kind == ListedKind::File {
            let node = FileTreeNode {
                name: e.name.clone(),
                path: child_path_of(dir, e.name.as_str()),
                kind: FileTreeNodeKind::File,
                is_expanded: false,
                is_selected: false,
                is_active: false,
                children: Vec::new(),
            };
            proof {
                lemma_node_view(node);
                assert(node@.children =~= Seq::<NodeView>::empty());
                assert(kept_files(entries@, dir@, i + 1) =~= kept_files(entries@, dir@, i as int).push(node@));
            }
            insert_by_name(&mut files, &mut file_keys, node, Ghost(kept_files(entries@, dir@, i as int)));
        }
        i = i + 1;
    }
    let ghost d = dirs@;
    let ghost f = files@;
    dirs.append(&mut files);
    proof { assert(nodes_view(dirs@) =~= nodes_view(d) + nodes_view(f)); }
    dirs
}

/// The name of the root node: the workspace root's file name, or the root
/// path itself when it has none.
pub open spec fn root_name(root: Seq<char>) -> Seq<char> {
    match file_name_of(root) {
        Some(n) => n,
        None => root,
    }
}

/// The root node of a workspace's tree: expanded, at the empty path, with
/// the children built from the listing of the workspace root.
pub open spec fn workspace_root_node(root: Seq<char>, listing: Seq<ListedEntry>) -> NodeView {
    NodeView {
        name: root_name(root),
        path: Seq::empty(),
        kind: FileTreeNodeKind::Directory,
        is_expanded: true,
        is_selected: false,
        is_active: false,
        children: listed_nodes(listing, Seq::empty()),
    }
}

// ---------------------------------------------------------------------------
// The order of siblings
// ---------------------------------------------------------------------------

/// Text order is asymmetric.
proof fn lemma_text_lt_asymmetric(a: Seq<char>, b: Seq<char>)
    ensures text_lt(a, b) ==> !text_lt(b, a),
    decreases a.len(),
{
    if a.len() > 0 && b.len() > 0 && a[0] == b[0] {
        lemma_text_lt_asymmetric(a.drop_first(), b.drop_first());
    }
}

/// Text order is transitive.
proof fn lemma_text_lt_transitive(a: Seq<char>, b: Seq<char>, c: Seq<char>)
    requires text_lt(a, b), text_lt(b, c),
    ensures text_lt(a, c),
    decreases a.len(),
{
    if a.len() > 0 && b.len() > 0 && c.len() > 0 && a[0] == b[0] && b[0] == c[0] {
        lemma_text_lt_transitive(a.drop_first(), b.drop_first(), c.drop_first());
    }
}

/// The keys before an insertion point are not above the key inserted; the
/// key at it is.
proof fn lemma_insertion_point_split(keys: Seq<Seq<char>>, k: Seq<char>, i: int)
    requires 0 <= i <= keys.len(),
    ensures
        i <= insertion_point(keys, k, i) <= keys.len(),
        forall|q: int| i <= q < insertion_point(keys, k, i) ==> !text_lt(k, #[trigger] keys[q]),
        insertion_point(keys, k, i) < keys.len() ==> text_lt(k, keys[insertion_point(keys, k, i)]),
    decreases keys.len() - i,
{
    if i < keys.len() && !text_lt(k, keys[i]) {
        lemma_insertion_point_split(keys, k, i + 1);
    }
}

/// Nodes whose lower-cased names never decrease.
pub open spec fn name_ordered(s: Seq<NodeView>) -> bool {
    forall|i: int, j: int| 0 <= i < j < s.len() ==> !text_lt(name_key(#[trigger] s[j]), name_key(#[trigger] s[i]))
}

/// Sorting by name orders the nodes by name and keeps each node as often as
/// it occurs.
proof fn lemma_sorted_by_name(s: Seq<NodeView>)
    ensures
        name_ordered(sorted_by_name(s)),
        sorted_by_name(s).to_multiset() == s.to_multiset(),
        sorted_by_name(s).len() == s.len(),
    decreases s.len(),
{
    broadcast use vstd::seq_lib::to_multiset_insert, vstd::seq_lib::to_multiset_build;
    if s.len() > 0 {
        let r = sorted_by_name(s.drop_last());
        lemma_sorted_by_name(s.drop_last());
        let x = s.last();
        let k = name_key(x);
        let ks = name_keys(r);
        let p = insertion_point(ks, k, 0);
        lemma_insertion_point_split(ks, k, 0);
        let t = r.insert(p, x);
        assert(sorted_by_name(s) == t);
        assert forall|i: int, j: int| 0 <= i < j < t.len() implies !text_lt(name_key(#[trigger] t[j]), name_key(#[trigger] t[i])) by {
            if i < p && j < p + 1 && j == p {
                assert(ks[i] == name_key(r[i]));
            } else if i == p {
                assert(t[j] == r[j - 1]);
                assert(ks[p] == name_key(r[p]));
                lemma_text_lt_asymmetric(k, name_key(r[p]));
                if j - 1 > p {
                    if text_lt(name_key(r[j - 1]), k) {
                        lemma_text_lt_transitive(name_key(r[j - 1]), k, name_key(r[p]));
                    }
                }
            } else if i < p && j > p {
                assert(t[j] == r[j - 1]);
            } else if i > p {
                assert(t[i] == r[i - 1]);
                assert(t[j] == r[j - 1]);
            }
        }
        assert(s.drop_last().push(x) =~= s);
    }
}

/// Sorting by name keeps a kind that every node has.
proof fn lemma_sorted_kind(s: Seq<NodeView>, k: FileTreeNodeKind)
    requires forall|i: int| 0 <= i < s.len() ==> (#[trigger] s[i]).kind == k,
    ensures forall|i: int| 0 <= i < sorted_by_name(s).len() ==> (#[trigger] sorted_by_name(s)[i]).kind == k,
    decreases s.len(),
{
    if s.len() > 0 {
        let r = sorted_by_name(s.drop_last());
        lemma_sorted_kind(s.drop_last(), k);
        lemma_sorted_by_name(s.drop_last());
        let p = insertion_point(name_keys(r), name_key(s.last()), 0);
        lemma_insertion_point_split(name_keys(r), name_key(s.last()), 0);
        assert(s.last().kind == k);
    }
}

/// The kept directories are directories, the kept files files.
proof fn lemma_kept_kinds(es: Seq<ListedEntry>, dir: Seq<char>, i: int)
    ensures
        forall|j: int| 0 <= j < kept_dirs(es, dir, i).len() ==> (#[trigger] kept_dirs(es, dir, i)[j]).kind == FileTreeNodeKind::Directory,
        forall|j: int| 0 <= j < kept_files(es, dir, i).len() ==> (#[trigger] kept_files(es, dir, i)[j]).kind == FileTreeNodeKind::File,
    decreases i,
{
    if i > 0 && i <= es.len() {
        lemma_kept_kinds(es, dir, i - 1);
    }
}

/// Law: the children built from a listing come directories first, then files;
/// within each group the lower-cased names never decrease; and each kept
/// entry's node occurs in them exactly once for each time the listing
/// gives it.
pub proof fn law_listed_children_order(es: Seq<ListedEntry>, dir: Seq<char>)
    ensures
        forall|i: int, j: int| 0 <= i < j < listed_nodes(es, dir).len() && (#[trigger] listed_nodes(es, dir)[i]).kind == FileTreeNodeKind::File
            ==> (#[trigger] listed_nodes(es, dir)[j]).kind == FileTreeNodeKind::File,
        forall|i: int, j: int| 0 <= i < j < listed_nodes(es, dir).len() && (#[trigger] listed_nodes(es, dir)[i]).kind == (#[trigger] listed_nodes(es, dir)[j]).kind
            ==> !text_lt(name_key(listed_nodes(es, dir)[j]), name_key(listed_nodes(es, dir)[i])),
        listed_nodes(es, dir).to_multiset()
            == kept_dirs(es, dir, es.len() as int).to_multiset().add(kept_files(es, dir, es.len() as int).to_multiset()),
{
    broadcast use vstd::seq_lib::lemma_multiset_commutative;
    let kd = kept_dirs(es, dir, es.len() as int);
    let kf = kept_files(es, dir, es.len() as int);
    let d = sorted_by_name(kd);
    let f = sorted_by_name(kf);
    let ns = listed_nodes(es, dir);
    lemma_kept_kinds(es, dir, es.len() as int);
    lemma_sorted_kind(kd, FileTreeNodeKind::Directory);
    lemma_sorted_kind(kf, FileTreeNodeKind::File);
    lemma_sorted_by_name(kd);
    lemma_sorted_by_name(kf);
    assert(ns == d + f);
    assert forall|i: int, j: int| 0 <= i < j < ns.len() && (#[trigger] ns[i]).kind == FileTreeNodeKind::File
        implies (#[trigger] ns[j]).kind == FileTreeNodeKind::File by {
        if i < d.len() {
            assert(ns[i] == d[i]);
        } else {
            assert(ns[j] == f[j - d.len()]);
        }
    }
    assert forall|i: int, j: int| 0 <= i < j < ns.len() && (#[trigger] ns[i]).kind == (#[trigger] ns[j]).kind
        implies !text_lt(name_key(ns[j]), name_key(ns[i])) by {
        if j < d.len() {
            assert(ns[i] == d[i] && ns[j] == d[j]);
        } else if i >= d.len() {
            assert(ns[i] == f[i - d.len()] && ns[j] == f[j - d.len()]);
        } else {
            assert(ns[i] == d[i] && ns[j] == f[j - d.len()]);
        }
    }
}

impl FileTreeState {
    /// The tree of a workspace from the listing of its root directory: one
    /// expanded root node named after the workspace, titled `EXPLORER`.
    pub fn from_workspace_root(workspace_root: &str, listing: &Vec<ListedEntry>) -> (r: Self)
        ensures
            r.title@ == "EXPLORER"@,
            r.roots_view() == seq![workspace_root_node(workspace_root@, listing@)],
    {
        let name = match file_name(workspace_root) {
            Some(n) => n,
            None => workspace_root.to_owned(),
        };
        let children = build_children(listing, "");
        let root = FileTreeNode {
            name,
            path: String::new(),
            kind: FileTreeNodeKind::Directory,
            is_expanded: true,
            is_selected: false,
            is_active: false,
            children,
        };
        proof {
            reveal_strlit("");
            lemma_node_view(root);
            assert(""@ =~= Seq::<char>::empty());
            assert(root@.name == root_name(workspace_root@));
            assert(root@.path =~= Seq::<char>::empty());
            assert(root@.children == listed_nodes(listing@, Seq::empty()));
            assert(root@ == workspace_root_node(workspace_root@, listing@));
        }
        let r = FileTreeState { title: "EXPLORER".to_owned(), roots: vec![root] };
        proof { assert(r.roots_view() =~= seq![workspace_root_node(workspace_root@, listing@)]); }
        r
    }
}

} // verus!
