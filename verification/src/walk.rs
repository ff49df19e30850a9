//! Collecting the files with a given extension below a directory.
//!
//! The walk keeps a stack of directories still to read. The driver pops a directory, lists
//! it, and hands the entries back: subdirectories go on the stack, files with the extension
//! are collected, in the order in which the listing gives them. Paths are carried as the
//! driver gives them (of any type `P`), so none is ever rewritten.
//!
//! `FsNode` models a finite directory tree; `walk_from` is the walk run to its end on such a
//! tree, and `tree_files` the files below a directory in depth-first order (see `laws`).
use vstd::prelude::*;

use crate::text::{extension_of, has_extension};

verus! {

/// One entry of a directory listing.
pub struct DirEntryInfo<P> {
    /// The full path of the entry.
    pub path: P,
    /// The entry's own name.
    pub name: String,
    /// Whether the path names a directory.
    pub is_dir: bool,
}

pub struct EntryView<P> {
    pub path: P,
    pub name: Seq<char>,
    pub is_dir: bool,
}

/// What the walk reads of a listing.
pub open spec fn entry_views<P>(es: Seq<DirEntryInfo<P>>) -> Seq<EntryView<P>> {
    es.map_values(|e: DirEntryInfo<P>| EntryView { path: e.path, name: e.name@, is_dir: e.is_dir })
}

/// The paths of the directories among `es`, in order.
pub open spec fn subdirs<P>(es: Seq<EntryView<P>>) -> Seq<P>
    decreases es.len(),
{
    if es.len() == 0 {
        Seq::empty()
    } else if es.last().is_dir {
        subdirs(es.drop_last()).push(es.last().path)
    } else {
        subdirs(es.drop_last())
    }
}

/// Whether `e` is a file whose name has the extension `ext`.
pub open spec fn is_match<P>(e: EntryView<P>, ext: Seq<char>) -> bool {
    !e.is_dir && extension_of(e.name) == Some(ext)
}

/// The paths of the files among `es` whose names have the extension `ext`, in order.
pub open spec fn matching_files<P>(es: Seq<EntryView<P>>, ext: Seq<char>) -> Seq<P>
    decreases es.len(),
{
    if es.len() == 0 {
        Seq::empty()
    } else if is_match(es.last(), ext) {
        matching_files(es.drop_last(), ext).push(es.last().path)
    } else {
        matching_files(es.drop_last(), ext)
    }
}

/// A walk in progress.
pub struct DirWalk<P> {
    /// Directories still to be listed; the last one is listed next.
    pub pending: Vec<P>,
    /// The files collected so far.
    pub found: Vec<P>,
    /// The extension looked for.
    pub ext: String,
}

impl<P> DirWalk<P> {
    /// Starts a walk below `root` for files with extension `ext`.
    pub fn new(root: P, ext: String) -> (w: DirWalk<P>)
        ensures
            w.pending@ == seq![root],
            w.found@.len() == 0,
            w.ext == ext,
    {
        let mut pending: Vec<P> = Vec::new();
        pending.push(root);
        proof {
            assert(pending@ =~= seq![root]);
        }
        DirWalk { pending, found: Vec::new(), ext }
    }

    /// Takes the next directory to list, the one pushed last; `None` once the walk is over.
    pub fn next_dir(&mut self) -> (r: Option<P>)
        ensures
            old(self).pending@.len() == 0 ==> r is None && final(self).pending@ == old(self).pending@,
            old(self).pending@.len() > 0 ==> r == Some(old(self).pending@.last())
                && final(self).pending@ == old(self).pending@.drop_last(),
            final(self).found@ == old(self).found@,
            final(self).ext == old(self).ext,
    {
        self.pending.pop()
    }

    /// Takes in the listing of the directory last taken: its subdirectories are to be listed,
    /// its files with the extension are collected.
    pub fn visit(&mut self, entries: Vec<DirEntryInfo<P>>)
        ensures
            final(self).pending@ == old(self).pending@ + subdirs(entry_views(entries@)),
            final(self).found@ == old(self).found@ + matching_files(
                entry_views(entries@),
                old(self).ext@,
            ),
            final(self).ext == old(self).ext,
    {
        let ghost es = entry_views(entries@);
        let ghost pending0 = self.pending@;
        let ghost found0 = self.found@;
        let mut rest = entries;
        let n = rest.len();
        let mut i: usize = 0;
        while i < n
            invariant
                n == es.len(),
                i <= n,
                rest@.len() == n - i,
                entry_views(rest@) == es.skip(i as int),
                self.ext == old(self).ext,
                self.pending@ == pending0 + subdirs(es.take(i as int)),
                self.found@ == found0 + matching_files(es.take(i as int), self.ext@),
            decreases n - i,
        {
            let ghost before = rest@;
            let e = rest.remove(0);
            proof {
                assert(es.skip(i as int)[0] == es[i as int]);
                assert(entry_views(before)[0] == es[i as int]);
                assert forall|k: int| 0 <= k < rest@.len() implies entry_views(rest@)[k] == es.skip(i + 1)[k] by {
                    assert(rest@[k] == before[k + 1]);
                    assert(entry_views(before)[k + 1] == es.skip(i as int)[k + 1]);
                }
                assert(entry_views(rest@) =~= es.skip(i + 1));
                assert(es.take(i + 1).drop_last() =~= es.take(i as int));
                assert(es.take(i + 1).last() == es[i as int]);
            }
            if e.is_dir {
                self.pending.push(e.path);
                proof {
                    assert(self.pending@ =~= pending0 + subdirs(es.take(i + 1)));
                }
            } else if has_extension(e.name.as_str(), self.ext.as_str()) {
                self.found.push(e.path);
                proof {
                    assert(self.found@ =~= found0 + matching_files(es.take(i + 1), self.ext@));
                }
            }
            i = i + 1;
        }
        proof {
            assert(es.take(n as int) =~= es);
        }
    }
}

/// A finite directory tree, as a model of what a walk lists: a file, or a directory with
/// its entries in listing order.
pub enum FsNode<P> {
    File { path: P, name: Seq<char> },
    Dir { path: P, name: Seq<char>, children: Seq<FsNode<P>> },
}

/// How a node appears in the listing of its parent.
pub open spec fn entry_of<P>(n: FsNode<P>) -> EntryView<P> {
    match n {
        FsNode::File { path, name } => EntryView { path, name, is_dir: false },
        FsNode::Dir { path, name, .. } => EntryView { path, name, is_dir: true },
    }
}

/// The listing of a directory with entries `cs`.
pub open spec fn listing<P>(cs: Seq<FsNode<P>>) -> Seq<EntryView<P>> {
    cs.map_values(|n: FsNode<P>| entry_of(n))
}

/// The subdirectories among `cs`, in listing order.
pub open spec fn dir_children<P>(cs: Seq<FsNode<P>>) -> Seq<FsNode<P>>
    decreases cs.len(),
{
    if cs.len() == 0 {
        Seq::empty()
    } else if cs.last() is Dir {
        dir_children(cs.drop_last()).push(cs.last())
    } else {
        dir_children(cs.drop_last())
    }
}

/// The path of a node.
pub open spec fn node_path<P>(n: FsNode<P>) -> P {
    match n {
        FsNode::File { path, .. } => path,
        FsNode::Dir { path, .. } => path,
    }
}

/// The number of nodes of a tree.
pub open spec fn tree_size<P>(n: FsNode<P>) -> nat
    decreases n,
{
    match n {
        FsNode::File { .. } => 1,
        FsNode::Dir { children, .. } => 1 + forest_size(children),
    }
}

/// The number of nodes of a sequence of trees.
pub open spec fn forest_size<P>(s: Seq<FsNode<P>>) -> nat
    decreases s,
{
    if s.len() == 0 {
        0
    } else {
        forest_size(s.drop_last()) + tree_size(s.last())
    }
}

/// A tree has at least one node.
pub proof fn lemma_tree_size_pos<P>(n: FsNode<P>)
    ensures
        tree_size(n) >= 1,
{
}

/// Taking the last tree off a stack takes its size off.
pub proof fn lemma_forest_size_last<P>(s: Seq<FsNode<P>>)
    requires
        s.len() > 0,
    ensures
        forest_size(s) == forest_size(s.drop_last()) + tree_size(s.last()),
        forest_size(s.drop_last()) < forest_size(s),
        tree_size(s.last()) <= forest_size(s),
{
    lemma_tree_size_pos(s.last());
}

/// The size of two stacks put together.
pub proof fn lemma_forest_size_add<P>(a: Seq<FsNode<P>>, b: Seq<FsNode<P>>)
    ensures
        forest_size(a + b) == forest_size(a) + forest_size(b),
    decreases b.len(),
{
    if b.len() == 0 {
        assert(a + b =~= a);
    } else {
        lemma_forest_size_add(a, b.drop_last());
        assert((a + b).drop_last() =~= a + b.drop_last());
        assert((a + b).last() == b.last());
    }
}

/// The subdirectories of a listing weigh no more than the listing.
pub proof fn lemma_dir_children_size<P>(cs: Seq<FsNode<P>>)
    ensures
        forest_size(dir_children(cs)) <= forest_size(cs),
    decreases cs.len(),
{
    if cs.len() > 0 {
        lemma_dir_children_size(cs.drop_last());
        if cs.last() is Dir {
            let d = dir_children(cs.drop_last());
            assert(d.push(cs.last()).drop_last() =~= d);
        }
    }
}

/// The files with extension `ext` below the trees of `s` (a stack: the last one first).
pub open spec fn forest_files<P>(s: Seq<FsNode<P>>, ext: Seq<char>) -> Seq<P>
    decreases forest_size(s), 1int,
{
    if s.len() == 0 {
        Seq::empty()
    } else {
        proof {
            lemma_forest_size_last(s);
        }
        tree_files(s.last(), ext) + forest_files(s.drop_last(), ext)
    }
}

/// The files with extension `ext` below a directory, in depth-first order: its own matching
/// files in listing order, then those below each subdirectory, the last subdirectory first.
pub open spec fn tree_files<P>(n: FsNode<P>, ext: Seq<char>) -> Seq<P>
    decreases tree_size(n), 0int,
{
    match n {
        FsNode::File { .. } => Seq::empty(),
        FsNode::Dir { children, .. } => {
            proof {
                lemma_dir_children_size(children);
            }
            matching_files(listing(children), ext) + forest_files(dir_children(children), ext)
        },
    }
}

/// The walk run to its end from the stack `stack`, each popped directory listed as the tree
/// has it: what it collects.
pub open spec fn walk_from<P>(stack: Seq<FsNode<P>>, ext: Seq<char>) -> Seq<P>
    decreases forest_size(stack),
{
    if stack.len() == 0 {
        Seq::empty()
    } else {
        proof {
            lemma_forest_size_last(stack);
        }
        match stack.last() {
            FsNode::File { .. } => walk_from(stack.drop_last(), ext),
            FsNode::Dir { children, .. } => {
                proof {
                    lemma_dir_children_size(children);
                    lemma_forest_size_add(stack.drop_last(), dir_children(children));
                }
                matching_files(listing(children), ext) + walk_from(
                    stack.drop_last() + dir_children(children),
                    ext,
                )
            },
        }
    }
}

} // verus!
