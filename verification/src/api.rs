//! Plain data model of the remote API's item responses.
//!
//! The remote endpoint answers a "get item with one-level expanded
//! children" request with a JSON object; these structs hold that answer
//! as plain values. Deserialization itself happens outside the library:
//! callers hand fully parsed values in.

use vstd::prelude::*;

verus! {

/// One remote node together with its one-level expanded child list.
#[derive(Debug, Clone, Default, PartialEq)]
pub struct DriveItem {
    pub created_by: CreatedBy,
    pub created_date_time: String,
    pub c_tag: String,
    pub e_tag: String,
    pub id: String,
    pub last_modified_by: LastModifiedBy,
    pub last_modified_date_time: String,
    pub name: String,
    pub parent_reference: ParentReference,
    pub size: u64,
    pub web_url: String,
    pub file_system_info: FileSystemInfo,
    pub folder: Folder,
    pub reactions: Reactions,
    pub shared: Shared,
    pub children_odata_count: i64,
    pub children: Vec<Children>,
}

#[derive(Debug, Clone, Default, PartialEq)]
pub struct CreatedBy {
    pub application: Option<Application>,
    pub user: User,
}

#[derive(Debug, Clone, Default, PartialEq)]
pub struct Application {
    pub display_name: String,
    pub id: String,
}

#[derive(Debug, Clone, Default, PartialEq)]
pub struct User {
    pub display_name: String,
    pub id: String,
}

#[derive(Debug, Clone, Default, PartialEq)]
pub struct LastModifiedBy {
    pub application: Option<Application>,
    pub user: User,
}

#[derive(Debug, Clone, Default, PartialEq)]
pub struct ParentReference {
    pub drive_id: String,
    pub drive_type: String,
    pub id: Option<String>,
    pub name: Option<String>,
    pub path: Option<String>,
    pub share_id: Option<String>,
}

#[derive(Debug, Clone, Default, PartialEq)]
pub struct FileSystemInfo {
    pub created_date_time: String,
    pub last_modified_date_time: String,
}

/// Folder-type marker: present on a node that the remote side sees as a folder.
#[derive(Debug, Clone, Default, PartialEq)]
pub struct Folder {
    pub child_count: i64,
    pub folder_view: FolderView,
    pub folder_type: String,
}

#[derive(Debug, Clone, Default, PartialEq)]
pub struct FolderView {
    pub view_type: String,
    pub sort_by: String,
    pub sort_order: String,
}

#[derive(Debug, Clone, Default, PartialEq)]
pub struct Reactions {
    pub comment_count: i64,
}

#[derive(Debug, Clone, Default, PartialEq)]
pub struct Shared {
    pub effective_roles: Vec<String>,
    pub owner: Owner,
    pub scope: String,
    pub shared_date_time: Option<String>,
}

#[derive(Debug, Clone, Default, PartialEq)]
pub struct Owner {
    pub user: User,
}

/// One entry of a node's one-level expanded child list.
///
/// The markers decide how discovery treats the entry: it is a file if
/// and only if the file-type marker is present together with a non-empty
/// content download URL; otherwise it is treated as a folder.
#[derive(Debug, Clone, Default, PartialEq)]
pub struct Children {
    pub content_download_url: Option<String>,
    pub created_by: CreatedBy,
    pub created_date_time: String,
    pub c_tag: String,
    pub e_tag: String,
    pub id: String,
    pub last_modified_by: LastModifiedBy,
    pub last_modified_date_time: String,
    pub name: String,
    pub parent_reference: ParentReference,
    pub size: u64,
    pub web_url: String,
    pub file_system_info: FileSystemInfo,
    pub folder: Option<Folder>,
    pub file: Option<File>,
    pub reactions: Reactions,
}

/// File-type marker: present on a node that the remote side sees as a file.
#[derive(Debug, Clone, Default, PartialEq)]
pub struct File {
    pub hashes: Hashes,
    pub mime_type: String,
}

#[derive(Debug, Clone, Default, PartialEq)]
pub struct Hashes {
    pub quick_xor_hash: String,
    pub sha1hash: String,
    pub sha256hash: String,
}

/// Whether a child entry counts as a file during discovery: the
/// file-type marker must be present and the entry must carry a
/// non-empty content download URL.
pub open spec fn is_file_entry(c: Children) -> bool {
    c.file is Some && (c.content_download_url matches Some(url) && url@.len() > 0)
}

impl Children {
    /// Discovery's file/folder test (presence of file metadata with a
    /// usable download URL, not absence of folder metadata).
    pub fn is_file(&self) -> (r: bool)
        ensures
            r == is_file_entry(*self),
    {
        match (&self.file, &self.content_download_url) {
            (Some(_), Some(url)) => !url.as_str().is_empty(),
            _ => false,
        }
    }
}

} // verus!
