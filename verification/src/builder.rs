//! Step-by-step discovery of one share's tree.
//!
//! Discovery must interleave remote fetches with tree construction, and
//! the fetches themselves live outside the library. [`TreeBuilder`] is
//! the state machine of that interleaving: a driver repeatedly calls
//! [`TreeBuilder::step`]; when a folder child is encountered the builder
//! answers [`BuildStep::Fetch`] with the node identifier whose one-level
//! expanded children the driver must fetch and hand back through
//! [`TreeBuilder::supply`]. Expansion is depth-first and strictly
//! complete: a folder is folded into its parent only once every one of
//! its children is fully resolved, so a finished tree never contains a
//! partially expanded node. A fetch failure simply means the driver
//! abandons the builder: discovery is all-or-nothing per share.

use vstd::prelude::*;

use crate::api::Children;
use crate::api::is_file_entry;
use crate::tree::ChildEntry;
use crate::tree::FileNode;
use crate::tree::FolderNode;
use crate::tree::Node;

verus! {

/// What one discovery step asks of its driver.
#[derive(Debug)]
pub enum BuildStep {
    /// Fetch this node's one-level expanded children and hand them to
    /// `supply` before stepping again.
    Fetch(String),
    /// Internal progress only; step again.
    Progress,
}

/// One folder whose children are still being resolved: the entries
/// already resolved, and the fetched child list still to process.
#[derive(Debug)]
pub struct Frame {
    pub id: String,
    pub name: String,
    pub done: Vec<ChildEntry>,
    pub pending: Vec<Children>,
}

/// The discovery state: a stack of partially resolved folders, the
/// bottom frame standing for the share root. `awaiting` is set between
/// a `Fetch` answer and the matching `supply`.
#[derive(Debug)]
pub struct TreeBuilder {
    pub frames: Vec<Frame>,
    pub awaiting: bool,
}

/// The entry a fully processed folder frame folds into its parent.
pub open spec fn folder_entry(fr: Frame) -> ChildEntry {
    ChildEntry { id: fr.id, node: Node::Folder(FolderNode { name: fr.name, children: fr.done }) }
}

/// The entry a file child resolves to, with no further fetch.
pub open spec fn file_child_entry(c: Children) -> ChildEntry {
    ChildEntry {
        id: c.id,
        node: Node::File(
            FileNode {
                name: c.name,
                size: c.size,
                content_download_url: c.content_download_url->Some_0,
            },
        ),
    }
}

impl TreeBuilder {
    /// The frame stack is never empty: the bottom frame is the share root.
    pub open spec fn wf(self) -> bool {
        self.frames@.len() >= 1
    }

    /// A `Fetch` was answered and `supply` has not yet been called.
    pub open spec fn is_awaiting(self) -> bool {
        self.awaiting
    }

    /// All children of the root are fully resolved: the tree is complete.
    pub open spec fn is_finished(self) -> bool {
        !self.awaiting && self.frames@.len() == 1 && self.frames@.last().pending@.len() == 0
    }

    /// Start discovering a share from its root's one-level expanded
    /// child list.
    pub fn new(root_children: Vec<Children>) -> (r: Self)
        ensures
            r.wf(),
            !r.is_awaiting(),
            r.frames@.len() == 1,
            r.frames@.last().pending == root_children,
            r.frames@.last().done@.len() == 0,
    {
        let root = Frame {
            id: String::new(),
            name: String::new(),
            done: Vec::new(),
            pending: root_children,
        };
        let mut frames = Vec::new();
        frames.push(root);
        TreeBuilder { frames, awaiting: false }
    }

    pub fn finished(&self) -> (r: bool)
        requires
            self.wf(),
        ensures
            r == self.is_finished(),
    {
        !self.awaiting && self.frames.len() == 1 && self.frames[0].pending.len() == 0
    }

    /// One discovery step. The processed child is the head of the top
    /// frame's pending list, so siblings are expanded one at a time in
    /// children-list order; a file child is resolved on the spot, a
    /// folder child asks the driver for a fetch, and a frame whose
    /// pending list is exhausted folds into its parent.
    pub fn step(&mut self) -> (r: BuildStep)
        requires
            old(self).wf(),
            !old(self).is_awaiting(),
            !old(self).is_finished(),
        ensures
            final(self).wf(),
            ({
                let pre = *old(self);
                let m = pre.frames@.len();
                let top = pre.frames@.last();
                if top.pending@.len() == 0 {
                    &&& r is Progress
                    &&& !final(self).is_awaiting()
                    &&& final(self).frames@.len() == m - 1
                    &&& forall|k: int| 0 <= k < m - 2 ==> final(self).frames@[k] == pre.frames@[k]
                    &&& final(self).frames@.last().id == pre.frames@[m - 2].id
                    &&& final(self).frames@.last().name == pre.frames@[m - 2].name
                    &&& final(self).frames@.last().pending == pre.frames@[m - 2].pending
                    &&& final(self).frames@.last().done@ == pre.frames@[m - 2].done@.push(
                        folder_entry(top),
                    )
                } else {
                    let c = top.pending@[0];
                    if is_file_entry(c) {
                        &&& r is Progress
                        &&& !final(self).is_awaiting()
                        &&& final(self).frames@.len() == m
                        &&& forall|k: int|
                            0 <= k < m - 1 ==> final(self).frames@[k] == pre.frames@[k]
                        &&& final(self).frames@.last().id == top.id
                        &&& final(self).frames@.last().name == top.name
                        &&& final(self).frames@.last().pending@ == top.pending@.drop_first()
                        &&& final(self).frames@.last().done@ == top.done@.push(file_child_entry(c))
                    } else {
                        &&& (r matches BuildStep::Fetch(id) && id@ == c.id@)
                        &&& final(self).is_awaiting()
                        &&& final(self).frames@.len() == m + 1
                        &&& forall|k: int|
                            0 <= k < m - 1 ==> final(self).frames@[k] == pre.frames@[k]
                        &&& final(self).frames@[m - 1].id == top.id
                        &&& final(self).frames@[m - 1].name == top.name
                        &&& final(self).frames@[m - 1].pending@ == top.pending@.drop_first()
                        &&& final(self).frames@[m - 1].done@ == top.done@
                        &&& final(self).frames@.last().id == c.id
                        &&& final(self).frames@.last().name == c.name
                        &&& final(self).frames@.last().pending@.len() == 0
                        &&& final(self).frames@.last().done@.len() == 0
                    }
                }
            }),
    {
        let mut top = self.frames.pop().unwrap();
        if top.pending.len() == 0 {
            // every child of this folder is resolved: fold it into its parent
            let mut parent = self.frames.pop().unwrap();
            let entry = ChildEntry {
                id: top.id,
                node: Node::Folder(FolderNode { name: top.name, children: top.done }),
            };
            parent.done.push(entry);
            self.frames.push(parent);
            BuildStep::Progress
        } else {
            let c = top.pending.remove(0);
            proof {
                assert(old(self).frames@.last().pending@.drop_first() =~= old(
                    self,
                ).frames@.last().pending@.remove(0));
            }
            if c.is_file() {
                let entry = ChildEntry {
                    id: c.id,
                    node: Node::File(
                        FileNode {
                            name: c.name,
                            size: c.size,
                            content_download_url: c.content_download_url.unwrap(),
                        },
                    ),
                };
                top.done.push(entry);
                self.frames.push(top);
                BuildStep::Progress
            } else {
                let fetch_id = c.id.clone();
                self.frames.push(top);
                let child_frame = Frame {
                    id: c.id,
                    name: c.name,
                    done: Vec::new(),
                    pending: Vec::new(),
                };
                self.frames.push(child_frame);
                self.awaiting = true;
                BuildStep::Fetch(fetch_id)
            }
        }
    }

    /// Hand the builder the fetched one-level child list of the folder
    /// it last asked for.
    pub fn supply(&mut self, children: Vec<Children>)
        requires
            old(self).wf(),
            old(self).is_awaiting(),
        ensures
            final(self).wf(),
            !final(self).is_awaiting(),
            final(self).frames@.len() == old(self).frames@.len(),
            forall|k: int|
                0 <= k < old(self).frames@.len() - 1 ==> final(self).frames@[k] == old(
                    self,
                ).frames@[k],
            final(self).frames@.last().id == old(self).frames@.last().id,
            final(self).frames@.last().name == old(self).frames@.last().name,
            final(self).frames@.last().done@ == old(self).frames@.last().done@,
            final(self).frames@.last().pending == children,
    {
        let mut top = self.frames.pop().unwrap();
        top.pending = children;
        self.frames.push(top);
        self.awaiting = false;
    }

    /// Take the finished tree: the fully resolved children of the root.
    pub fn into_tree(self) -> (r: Vec<ChildEntry>)
        requires
            self.wf(),
            self.is_finished(),
        ensures
            r == self.frames@[0].done,
    {
        let mut frames = self.frames;
        let root = frames.pop().unwrap();
        root.done
    }
}

} // verus!
