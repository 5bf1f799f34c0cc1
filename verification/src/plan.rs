//! Flattening a discovered tree into a download plan.
//!
//! A depth-first walk over the tree accumulates one directory segment
//! per folder nesting level and emits one download task per file node.
//! The task's path names the directory that will contain the file; the
//! file's own name is appended only when the download runs.

use vstd::prelude::*;

use crate::tree::ChildEntry;
use crate::tree::FileNode;
use crate::tree::Node;
use crate::tree::file_count;
use crate::tree::file_count_entries;

verus! {

/// One download task: a file's metadata paired with the directory
/// (as a list of path segments) it should be materialized in.
#[derive(Debug)]
pub struct DownloadEntry {
    pub file: FileNode,
    pub path: Vec<String>,
}

/// Mathematical image of one download task.
pub struct TaskModel {
    pub name: Seq<char>,
    pub size: u64,
    pub url: Seq<char>,
    pub dir: Seq<Seq<char>>,
}

/// A directory as the sequence of its segments' characters.
pub open spec fn dir_view(path: Seq<String>) -> Seq<Seq<char>> {
    path.map_values(|s: String| s@)
}

/// Mathematical image of a task.
pub open spec fn task_model(e: DownloadEntry) -> TaskModel {
    TaskModel {
        name: e.file.name@,
        size: e.file.size,
        url: e.file.content_download_url@,
        dir: dir_view(e.path@),
    }
}

/// Mathematical image of a whole task list.
pub open spec fn task_models(s: Seq<DownloadEntry>) -> Seq<TaskModel> {
    s.map_values(|e: DownloadEntry| task_model(e))
}

/// The download plan of one node: one task per reachable file node, each
/// task's directory being `dir` extended by the folder names on the way
/// from `n` to that file's immediate parent, in traversal order.
pub open spec fn plan_of(n: Node, dir: Seq<Seq<char>>) -> Seq<TaskModel>
    decreases n,
{
    match n {
        Node::File(f) => seq![
            TaskModel { name: f.name@, size: f.size, url: f.content_download_url@, dir },
        ],
        Node::Folder(fo) => plan_of_entries(fo.children@, dir.push(fo.name@)),
    }
}

/// The download plan of a list of sibling entries, in list order.
pub open spec fn plan_of_entries(es: Seq<ChildEntry>, dir: Seq<Seq<char>>) -> Seq<TaskModel>
    decreases es,
{
    if es.len() == 0 {
        Seq::<TaskModel>::empty()
    } else {
        plan_of(es[0].node, dir) + plan_of_entries(es.drop_first(), dir)
    }
}

/// A plan distributes over appending one sibling at the end.
pub proof fn lemma_plan_entries_snoc(es: Seq<ChildEntry>, e: ChildEntry, dir: Seq<Seq<char>>)
    ensures
        plan_of_entries(es.push(e), dir) == plan_of_entries(es, dir) + plan_of(e.node, dir),
    decreases es.len(),
{
    if es.len() == 0 {
        assert(es.push(e)[0] == e);
        assert(es.push(e).drop_first() =~= Seq::<ChildEntry>::empty());
        assert(plan_of_entries(es.push(e), dir) == plan_of(e.node, dir) + plan_of_entries(
            Seq::<ChildEntry>::empty(),
            dir,
        ));
        assert(plan_of_entries(Seq::<ChildEntry>::empty(), dir) =~= Seq::<TaskModel>::empty());
        assert(plan_of_entries(es, dir) =~= Seq::<TaskModel>::empty());
        assert(plan_of(e.node, dir) + Seq::<TaskModel>::empty() =~= Seq::<TaskModel>::empty()
            + plan_of(e.node, dir));
    } else {
        assert(es.push(e)[0] == es[0]);
        assert(es.push(e).drop_first() =~= es.drop_first().push(e));
        lemma_plan_entries_snoc(es.drop_first(), e, dir);
        assert(plan_of_entries(es.push(e), dir) =~= plan_of_entries(es, dir) + plan_of(
            e.node,
            dir,
        ));
    }
}

/// Flattening produces exactly one task per reachable file node — and
/// none for folder nodes themselves.
pub proof fn lemma_plan_one_task_per_file(n: Node, dir: Seq<Seq<char>>)
    ensures
        plan_of(n, dir).len() == file_count(n),
    decreases n,
{
    match n {
        Node::File(_) => {},
        Node::Folder(fo) => {
            lemma_plan_entries_one_task_per_file(fo.children@, dir.push(fo.name@));
        },
    }
}

/// Sibling-list form of [`lemma_plan_one_task_per_file`].
pub proof fn lemma_plan_entries_one_task_per_file(es: Seq<ChildEntry>, dir: Seq<Seq<char>>)
    ensures
        plan_of_entries(es, dir).len() == file_count_entries(es),
    decreases es,
{
    if es.len() > 0 {
        lemma_plan_one_task_per_file(es[0].node, dir);
        lemma_plan_entries_one_task_per_file(es.drop_first(), dir);
    }
}

/// Every task a node contributes is placed under the directory the walk
/// entered that node with: the accumulated `dir` is a prefix of the
/// task's directory, and what follows it does not depend on `dir`.
pub proof fn lemma_plan_rebase(n: Node, dir: Seq<Seq<char>>)
    ensures
        plan_of(n, dir).len() == plan_of(n, Seq::<Seq<char>>::empty()).len(),
        forall|i: int|
            0 <= i < plan_of(n, dir).len() ==> {
                let t = #[trigger] plan_of(n, dir)[i];
                let u = plan_of(n, Seq::<Seq<char>>::empty())[i];
                t.name == u.name && t.size == u.size && t.url == u.url && t.dir == dir + u.dir
            },
    decreases n,
{
    lemma_plan_shift(n, dir, Seq::<Seq<char>>::empty());
    assert forall|i: int| #![trigger plan_of(n, dir)[i]] 0 <= i < plan_of(n, dir).len() implies {
        let t = plan_of(n, dir)[i];
        let u = plan_of(n, Seq::<Seq<char>>::empty())[i];
        t.dir == dir + u.dir
    } by {
        let u = plan_of(n, Seq::<Seq<char>>::empty())[i];
        assert(u.dir.subrange(0, u.dir.len() as int) =~= u.dir);
    }
}

/// Plans taken from two starting directories agree task for task; only
/// the directory differs, by the starting directory itself.
pub proof fn lemma_plan_shift(n: Node, dir1: Seq<Seq<char>>, dir2: Seq<Seq<char>>)
    ensures
        plan_of(n, dir1).len() == plan_of(n, dir2).len(),
        forall|i: int|
            0 <= i < plan_of(n, dir1).len() ==> {
                let t = #[trigger] plan_of(n, dir1)[i];
                let u = plan_of(n, dir2)[i];
                t.name == u.name && t.size == u.size && t.url == u.url && u.dir.len() >= dir2.len()
                    && u.dir.subrange(0, dir2.len() as int) == dir2 && t.dir == dir1
                    + u.dir.subrange(dir2.len() as int, u.dir.len() as int)
            },
    decreases n,
{
    match n {
        Node::File(f) => {
            assert(dir2.subrange(0, dir2.len() as int) =~= dir2);
            assert(dir1 + dir2.subrange(dir2.len() as int, dir2.len() as int) =~= dir1);
        },
        Node::Folder(fo) => {
            lemma_plan_entries_shift(fo.children@, dir1.push(fo.name@), dir2.push(fo.name@));
            assert forall|i: int| 0 <= i < plan_of(n, dir1).len() implies {
                let t = #[trigger] plan_of(n, dir1)[i];
                let u = plan_of(n, dir2)[i];
                t.name == u.name && t.size == u.size && t.url == u.url && u.dir.len() >= dir2.len()
                    && u.dir.subrange(0, dir2.len() as int) == dir2 && t.dir == dir1
                    + u.dir.subrange(dir2.len() as int, u.dir.len() as int)
            } by {
                let t = plan_of_entries(fo.children@, dir1.push(fo.name@))[i];
                let u = plan_of_entries(fo.children@, dir2.push(fo.name@))[i];
                assert(plan_of(n, dir1)[i] == t);
                assert(plan_of(n, dir2)[i] == u);
                assert(u.dir.subrange(0, dir2.len() as int + 1) == dir2.push(fo.name@));
                assert(u.dir.subrange(0, dir2.len() as int + 1)[dir2.len() as int]
                    == u.dir[dir2.len() as int]);
                assert(u.dir.subrange(0, dir2.len() as int) =~= u.dir.subrange(
                    0,
                    dir2.len() as int + 1,
                ).subrange(0, dir2.len() as int));
                assert(u.dir.subrange(0, dir2.len() as int) =~= dir2);
                assert(u.dir[dir2.len() as int] == fo.name@);
                assert(u.dir.subrange(dir2.len() as int, u.dir.len() as int) =~= seq![fo.name@]
                    + u.dir.subrange(dir2.len() as int + 1, u.dir.len() as int));
                assert(dir1 + u.dir.subrange(dir2.len() as int, u.dir.len() as int) =~= dir1.push(
                    fo.name@,
                ) + u.dir.subrange(dir2.len() as int + 1, u.dir.len() as int));
            }
        },
    }
}

/// Depth-first flattening: walks the sibling entries in list order and
/// appends to `store` one task per reachable file node. Entering a
/// folder pushes its name onto `path`, leaving it pops the name again;
/// a file is paired with a copy of the accumulated path (the directory
/// that will contain it — the file's own name is not yet appended).
pub fn download_tree(
    tree: &Vec<ChildEntry>,
    path: &mut Vec<String>,
    store: &mut Vec<DownloadEntry>,
)
    ensures
        final(path)@ == old(path)@,
        task_models(final(store)@) == task_models(old(store)@) + plan_of_entries(
            tree@,
            dir_view(old(path)@),
        ),
        final(store)@.len() == old(store)@.len() + file_count_entries(tree@),
    decreases tree@,
{
    let ghost orig_path = path@;
    let ghost orig_models = task_models(store@);
    let ghost dir = dir_view(orig_path);
    let n = tree.len();
    let mut i: usize = 0;
    while i < n
        invariant
            n == tree@.len(),
            i <= n,
            path@ == orig_path,
            dir == dir_view(orig_path),
            task_models(store@) == orig_models + plan_of_entries(
                tree@.subrange(0, i as int),
                dir,
            ),
        decreases n - i,
    {
        let ghost pre_models = task_models(store@);
        match &tree[i].node {
            Node::File(f) => {
                let entry = DownloadEntry {
                    file: FileNode {
                        name: f.name.clone(),
                        size: f.size,
                        content_download_url: f.content_download_url.clone(),
                    },
                    path: path.clone(),
                };
                proof {
                    assert(dir_view(entry.path@) =~= dir);
                }
                store.push(entry);
                proof {
                    assert(task_models(store@) =~= pre_models + plan_of(tree@[i as int].node, dir));
                }
            },
            Node::Folder(fo) => {
                path.push(fo.name.clone());
                proof {
                    assert(dir_view(path@) =~= dir.push(fo.name@));
                }
                download_tree(&fo.children, path, store);
                path.pop();
                proof {
                    assert(path@ =~= orig_path);
                    assert(task_models(store@) =~= pre_models + plan_of(tree@[i as int].node, dir));
                }
            },
        }
        proof {
            assert(tree@.subrange(0, i as int + 1) =~= tree@.subrange(0, i as int).push(
                tree@[i as int],
            ));
            lemma_plan_entries_snoc(tree@.subrange(0, i as int), tree@[i as int], dir);
            assert(task_models(store@) =~= orig_models + plan_of_entries(
                tree@.subrange(0, i as int + 1),
                dir,
            ));
        }
        i = i + 1;
    }
    proof {
        assert(tree@.subrange(0, n as int) =~= tree@);
        lemma_plan_entries_one_task_per_file(tree@, dir);
    }
}

/// Sibling-list form of [`lemma_plan_shift`].
pub proof fn lemma_plan_entries_shift(es: Seq<ChildEntry>, dir1: Seq<Seq<char>>, dir2: Seq<
    Seq<char>,
>)
    ensures
        plan_of_entries(es, dir1).len() == plan_of_entries(es, dir2).len(),
        forall|i: int|
            0 <= i < plan_of_entries(es, dir1).len() ==> {
                let t = #[trigger] plan_of_entries(es, dir1)[i];
                let u = plan_of_entries(es, dir2)[i];
                t.name == u.name && t.size == u.size && t.url == u.url && u.dir.len() >= dir2.len()
                    && u.dir.subrange(0, dir2.len() as int) == dir2 && t.dir == dir1
                    + u.dir.subrange(dir2.len() as int, u.dir.len() as int)
            },
    decreases es,
{
    if es.len() > 0 {
        lemma_plan_shift(es[0].node, dir1, dir2);
        lemma_plan_entries_shift(es.drop_first(), dir1, dir2);
    }
}

} // verus!
