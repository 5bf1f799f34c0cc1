//! Offline model of one share's folder/file tree.
//!
//! A discovered tree is a list of [`ChildEntry`] values, each pairing a
//! remote identifier with a fully resolved [`Node`]. Identifiers come
//! from an acyclic remote source and are unique within a share, so the
//! structure is a strict tree.

use vstd::prelude::*;

verus! {

/// One fully resolved remote node: a folder with its resolved children,
/// or a file with the metadata a download needs.
#[derive(Debug)]
pub enum Node {
    Folder(FolderNode),
    File(FileNode),
}

/// A folder and its fully resolved children, keyed by remote identifier.
#[derive(Debug)]
pub struct FolderNode {
    pub name: String,
    pub children: Vec<ChildEntry>,
}

/// A file's download metadata: the recorded remote size is what skip
/// detection later compares local files against.
#[derive(Debug, Clone)]
pub struct FileNode {
    pub name: String,
    pub size: u64,
    pub content_download_url: String,
}

/// One child of a folder (or of the share root), under its remote identifier.
#[derive(Debug)]
pub struct ChildEntry {
    pub id: String,
    pub node: Node,
}

/// Number of file nodes reachable from this node.
pub open spec fn file_count(n: Node) -> nat
    decreases n,
{
    match n {
        Node::File(_) => 1,
        Node::Folder(fo) => file_count_entries(fo.children@),
    }
}

/// Number of file nodes reachable from a list of sibling entries.
pub open spec fn file_count_entries(es: Seq<ChildEntry>) -> nat
    decreases es,
{
    if es.len() == 0 {
        0
    } else {
        file_count(es[0].node) + file_count_entries(es.drop_first())
    }
}

} // verus!
