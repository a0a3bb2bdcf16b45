//! Planning of the archive: which entry each visited file-system node becomes,
//! under which name, and how it is stored. Walking the trees and writing the
//! container are the caller's work; it hands over what it visited, in the
//! order it visited it.

use vstd::prelude::*;

verus! {

/// What a visited node is.
#[derive(Clone, Copy, Debug, PartialEq, Eq, Structural)]
pub enum NodeKind {
    Directory,
    File,
}

/// A node visited under a source directory: its path relative to that
/// directory, as components (empty for the directory itself), its kind, and
/// its size in bytes (for a file).
#[derive(Clone, Debug)]
pub struct WalkNode {
    pub relative: Vec<String>,
    pub kind: NodeKind,
    pub size: u64,
}

/// One source directory as walked: the archive prefix of its entries and the
/// nodes visited under it, in traversal order.
#[derive(Clone, Debug)]
pub struct SourceTree {
    pub prefix: String,
    pub nodes: Vec<WalkNode>,
}

/// How an entry is stored in the archive.
#[derive(Clone, Copy, Debug, PartialEq, Eq, Structural)]
pub enum Compression {
    Stored,
    Deflated,
}

/// An entry to write: its name in the archive, its storage method, and
/// whether the file's bytes are to be copied into it.
#[derive(Clone, Debug)]
pub struct ArchiveEntry {
    pub name: String,
    pub method: Compression,
    pub copy_content: bool,
}

impl ArchiveEntry {
    pub open spec fn view(&self) -> (Seq<char>, Compression, bool) {
        (self.name@, self.method, self.copy_content)
    }
}

/// The parts of a path joined with `/`.
pub open spec fn join_parts(parts: Seq<Seq<char>>) -> Seq<char>
    decreases parts.len(),
{
    if parts.len() == 0 {
        Seq::empty()
    } else if parts.len() == 1 {
        parts[0]
    } else {
        join_parts(parts.drop_last()) + seq!['/'] + parts.last()
    }
}

/// The parts of an entry's path: the prefix, unless it is empty, then the
/// node's relative path.
pub open spec fn entry_parts(prefix: Seq<char>, relative: Seq<Seq<char>>) -> Seq<Seq<char>> {
    if prefix.len() == 0 {
        relative
    } else {
        seq![prefix] + relative
    }
}

/// The entry a node becomes under `prefix`, if any. A directory's name ends
/// with `/`. Directories and empty files are stored; other files are
/// compressed and their bytes copied. A node whose path has no part (the
/// source directory itself under an empty prefix) becomes no entry.
pub open spec fn planned_entry(prefix: Seq<char>, node: WalkNode) -> Option<(Seq<char>, Compression, bool)> {
    let parts = entry_parts(prefix, node.relative.deep_view());
    if parts.len() == 0 {
        None
    } else if node.kind is Directory {
        Some((join_parts(parts) + seq!['/'], Compression::Stored, false))
    } else if node.size == 0 {
        Some((join_parts(parts), Compression::Stored, false))
    } else {
        Some((join_parts(parts), Compression::Deflated, true))
    }
}

/// The entries of `nodes` under `prefix`, in order.
pub open spec fn plan_nodes(prefix: Seq<char>, nodes: Seq<WalkNode>) -> Seq<(Seq<char>, Compression, bool)>
    decreases nodes.len(),
{
    if nodes.len() == 0 {
        Seq::empty()
    } else {
        let rest = plan_nodes(prefix, nodes.drop_last());
        match planned_entry(prefix, nodes.last()) {
            Some(e) => rest.push(e),
            None => rest,
        }
    }
}

/// The entries of every tree, tree after tree.
pub open spec fn plan_trees(trees: Seq<SourceTree>) -> Seq<(Seq<char>, Compression, bool)>
    decreases trees.len(),
{
    if trees.len() == 0 {
        Seq::empty()
    } else {
        plan_trees(trees.drop_last()) + plan_nodes(trees.last().prefix@, trees.last().nodes@)
    }
}

/// A file of zero bytes becomes an entry under its own path that is stored,
/// not compressed, and gets no bytes copied into it.
pub proof fn lemma_empty_file_is_stored(prefix: Seq<char>, node: WalkNode)
    requires
        node.kind is File,
        node.size == 0,
        entry_parts(prefix, node.relative.deep_view()).len() > 0,
    ensures
        planned_entry(prefix, node) == Some(
            (join_parts(entry_parts(prefix, node.relative.deep_view())), Compression::Stored, false),
        ),
{
}

proof fn lemma_entry_parts_push(prefix: Seq<char>, rel: Seq<Seq<char>>, i: int)
    requires
        0 <= i < rel.len(),
    ensures
        entry_parts(prefix, rel.subrange(0, i + 1)) == entry_parts(prefix, rel.subrange(0, i)).push(rel[i]),
{
    assert(rel.subrange(0, i + 1) =~= rel.subrange(0, i).push(rel[i]));
    if prefix.len() != 0 {
        assert(seq![prefix] + rel.subrange(0, i + 1) =~= (seq![prefix] + rel.subrange(0, i)).push(rel[i]));
    }
}

proof fn lemma_join_push(parts: Seq<Seq<char>>, x: Seq<char>)
    ensures
        join_parts(parts.push(x)) == if parts.len() == 0 {
            x
        } else {
            join_parts(parts) + seq!['/'] + x
        },
{
    assert(parts.push(x).drop_last() =~= parts);
}

/// The name of a node under `prefix`, without the trailing `/` of a directory,
/// and whether it has any part.
fn joined_path(prefix: &str, relative: &Vec<String>) -> (r: (String, bool))
    ensures
        r.0@ == join_parts(entry_parts(prefix@, relative.deep_view())),
        r.1 == (entry_parts(prefix@, relative.deep_view()).len() > 0),
{
    let ghost rel = relative.deep_view();
    let mut s = String::from_str(prefix);
    let mut started: bool = prefix.unicode_len() != 0;
    proof {
        assert(rel.subrange(0, 0) =~= Seq::<Seq<char>>::empty());
        if prefix@.len() != 0 {
            assert(seq![prefix@] + Seq::<Seq<char>>::empty() =~= seq![prefix@]);
            assert(seq![prefix@].drop_last() =~= Seq::<Seq<char>>::empty());
        }
    }
    let mut i: usize = 0;
    while i < relative.len()
        invariant
            rel == relative.deep_view(),
            i <= relative@.len(),
            started == (entry_parts(prefix@, rel.subrange(0, i as int)).len() > 0),
            s@ == join_parts(entry_parts(prefix@, rel.subrange(0, i as int))),
        decreases relative@.len() - i,
    {
        proof {
            lemma_entry_parts_push(prefix@, rel, i as int);
            lemma_join_push(entry_parts(prefix@, rel.subrange(0, i as int)), rel[i as int]);
            reveal_strlit("/");
        }
        if started {
            s.append("/");
        }
        s.append(relative[i].as_str());
        started = true;
        i = i + 1;
        proof {
            assert(s@ =~= join_parts(entry_parts(prefix@, rel.subrange(0, i as int))));
        }
    }
    proof {
        assert(rel.subrange(0, i as int) =~= rel);
    }
    (s, started)
}

/// The entry that `node` becomes under `prefix`, if any.
pub fn plan_entry(prefix: &str, node: &WalkNode) -> (r: Option<ArchiveEntry>)
    ensures
        r is None <==> planned_entry(prefix@, *node) is None,
        r matches Some(e) ==> planned_entry(prefix@, *node) == Some(e.view()),
{
    let (mut name, has_parts) = joined_path(prefix, &node.relative);
    if !has_parts {
        return None;
    }
    match node.kind {
        NodeKind::Directory => {
            name.append("/");
            proof {
                reveal_strlit("/");
            }
            Some(ArchiveEntry { name, method: Compression::Stored, copy_content: false })
        },
        NodeKind::File => {
            if node.size == 0 {
                Some(ArchiveEntry { name, method: Compression::Stored, copy_content: false })
            } else {
                Some(ArchiveEntry { name, method: Compression::Deflated, copy_content: true })
            }
        },
    }
}

/// The entries of a whole archive: the trees in order, and within each tree
/// its nodes in traversal order.
pub fn plan_archive(trees: &Vec<SourceTree>) -> (r: Vec<ArchiveEntry>)
    ensures
        r@.map_values(|e: ArchiveEntry| e.view()) == plan_trees(trees@),
{
    let mut out: Vec<ArchiveEntry> = Vec::new();
    let mut t: usize = 0;
    while t < trees.len()
        invariant
            t <= trees@.len(),
            out@.map_values(|e: ArchiveEntry| e.view()) == plan_trees(trees@.subrange(0, t as int)),
        decreases trees@.len() - t,
    {
        let tree = &trees[t];
        let ghost before = out@.map_values(|e: ArchiveEntry| e.view());
        let mut n: usize = 0;
        while n < tree.nodes.len()
            invariant
                n <= tree.nodes@.len(),
                out@.map_values(|e: ArchiveEntry| e.view()) == before + plan_nodes(
                    tree.prefix@,
                    tree.nodes@.subrange(0, n as int),
                ),
            decreases tree.nodes@.len() - n,
        {
            let ghost prev = out@;
            proof {
                assert(tree.nodes@.subrange(0, n as int + 1).drop_last() =~= tree.nodes@.subrange(0, n as int));
            }
            match plan_entry(tree.prefix.as_str(), &tree.nodes[n]) {
                Some(e) => {
                    out.push(e);
                    proof {
                        assert(out@.map_values(|e: ArchiveEntry| e.view()) =~= prev.map_values(
                            |e: ArchiveEntry| e.view(),
                        ).push(e.view()));
                    }
                },
                None => {},
            }
            n = n + 1;
        }
        proof {
            assert(tree.nodes@.subrange(0, n as int) =~= tree.nodes@);
            assert(trees@.subrange(0, t as int + 1).drop_last() =~= trees@.subrange(0, t as int));
        }
        t = t + 1;
    }
    proof {
        assert(trees@.subrange(0, t as int) =~= trees@);
    }
    out
}

proof fn lemma_plan_nodes_members(prefix: Seq<char>, nodes: Seq<WalkNode>)
    ensures
        forall|e: (Seq<char>, Compression, bool)|
            plan_nodes(prefix, nodes).contains(e) <==> exists|j: int|
                0 <= j < nodes.len() && planned_entry(prefix, #[trigger] nodes[j]) == Some(e),
    decreases nodes.len(),
{
    if nodes.len() > 0 {
        let init = nodes.drop_last();
        lemma_plan_nodes_members(prefix, init);
        let rest = plan_nodes(prefix, init);
        assert forall|e: (Seq<char>, Compression, bool)|
            plan_nodes(prefix, nodes).contains(e) <==> exists|j: int|
                0 <= j < nodes.len() && planned_entry(prefix, #[trigger] nodes[j]) == Some(e) by {
            if plan_nodes(prefix, nodes).contains(e) {
                match planned_entry(prefix, nodes.last()) {
                    Some(x) => {
                        let k = choose|k: int| 0 <= k < rest.push(x).len() && rest.push(x)[k] == e;
                        if k < rest.len() {
                            assert(rest[k] == e);
                            assert(rest.contains(e));
                            let j = choose|j: int| 0 <= j < init.len() && planned_entry(prefix, #[trigger] init[j]) == Some(e);
                            assert(nodes[j] == init[j]);
                        } else {
                            assert(nodes[nodes.len() - 1] == nodes.last());
                        }
                    },
                    None => {
                        let j = choose|j: int| 0 <= j < init.len() && planned_entry(prefix, #[trigger] init[j]) == Some(e);
                        assert(nodes[j] == init[j]);
                    },
                }
            }
            if exists|j: int| 0 <= j < nodes.len() && planned_entry(prefix, #[trigger] nodes[j]) == Some(e) {
                let j = choose|j: int| 0 <= j < nodes.len() && planned_entry(prefix, #[trigger] nodes[j]) == Some(e);
                if j < init.len() {
                    assert(init[j] == nodes[j]);
                    assert(rest.contains(e));
                    let k = choose|k: int| 0 <= k < rest.len() && rest[k] == e;
                    match planned_entry(prefix, nodes.last()) {
                        Some(x) => {
                            assert(rest.push(x)[k] == e);
                        },
                        None => {},
                    }
                } else {
                    assert(nodes[j] == nodes.last());
                    let x = planned_entry(prefix, nodes.last())->0;
                    assert(rest.push(x)[rest.len() as int] == e);
                }
            }
        }
    }
}

/// The archive's entries are exactly the entries of the trees' nodes, each
/// under its own tree's prefix: an entry is in the archive if and only if
/// some node of some tree becomes it.
pub proof fn lemma_archive_entries_are_tree_entries(trees: Seq<SourceTree>)
    ensures
        forall|e: (Seq<char>, Compression, bool)|
            plan_trees(trees).contains(e) <==> exists|i: int, j: int|
                0 <= i < trees.len() && 0 <= j < trees[i].nodes@.len() && planned_entry(
                    trees[i].prefix@,
                    #[trigger] trees[i].nodes@[j],
                ) == Some(e),
    decreases trees.len(),
{
    if trees.len() > 0 {
        let init = trees.drop_last();
        let last = trees.last();
        lemma_archive_entries_are_tree_entries(init);
        lemma_plan_nodes_members(last.prefix@, last.nodes@);
        let a = plan_trees(init);
        let b = plan_nodes(last.prefix@, last.nodes@);
        assert forall|e: (Seq<char>, Compression, bool)|
            plan_trees(trees).contains(e) <==> exists|i: int, j: int|
                0 <= i < trees.len() && 0 <= j < trees[i].nodes@.len() && planned_entry(
                    trees[i].prefix@,
                    #[trigger] trees[i].nodes@[j],
                ) == Some(e) by {
            if plan_trees(trees).contains(e) {
                let k = choose|k: int| 0 <= k < (a + b).len() && (a + b)[k] == e;
                if k < a.len() {
                    assert(a[k] == e);
                    assert(a.contains(e));
                    let (i, j) = choose|i: int, j: int|
                        0 <= i < init.len() && 0 <= j < init[i].nodes@.len() && planned_entry(
                            init[i].prefix@,
                            #[trigger] init[i].nodes@[j],
                        ) == Some(e);
                    assert(trees[i] == init[i]);
                } else {
                    assert(b[k - a.len()] == e);
                    assert(b.contains(e));
                    let j = choose|j: int| 0 <= j < last.nodes@.len() && planned_entry(last.prefix@, #[trigger] last.nodes@[j]) == Some(e);
                    assert(trees[trees.len() - 1] == last);
                }
            }
            if exists|i: int, j: int|
                0 <= i < trees.len() && 0 <= j < trees[i].nodes@.len() && planned_entry(
                    trees[i].prefix@,
                    #[trigger] trees[i].nodes@[j],
                ) == Some(e) {
                let (i, j) = choose|i: int, j: int|
                    0 <= i < trees.len() && 0 <= j < trees[i].nodes@.len() && planned_entry(
                        trees[i].prefix@,
                        #[trigger] trees[i].nodes@[j],
                    ) == Some(e);
                if i < init.len() {
                    assert(init[i] == trees[i]);
                    assert(a.contains(e));
                    let k = choose|k: int| 0 <= k < a.len() && a[k] == e;
                    assert((a + b)[k] == e);
                } else {
                    assert(trees[i] == last);
                    assert(b.contains(e));
                    let k = choose|k: int| 0 <= k < b.len() && b[k] == e;
                    assert((a + b)[a.len() + k] == e);
                }
            }
        }
    }
}

} // verus!
