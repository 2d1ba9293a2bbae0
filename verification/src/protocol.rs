//! Data-only request descriptors for the wire operations, decoupled from the
//! transport and from the JSON encoding that the surrounding client applies
//! to them.

use vstd::prelude::*;

verus! {

/// Write-mode policy sent with a commit.  This client always overwrites the
/// destination; conflict detection against remote revisions is deliberately
/// not attempted.
#[derive(Clone, Copy, Debug, PartialEq, Eq, Structural)]
pub enum WriteMode {
    Overwrite,
}

/// Commit instructions for an upload: destination path, write mode, and
/// whether to mute the notification the service would otherwise raise.
pub struct Upload {
    pub path: String,
    pub mode: WriteMode,
    pub mute: bool,
}

impl Upload {
    /// The commit instructions this client always sends: overwrite the
    /// destination, with notifications muted.
    pub fn new(path: String) -> (r: Upload)
        ensures
            r.path == path,
            r.mode is Overwrite,
            r.mute,
    {
        Upload { path, mode: WriteMode::Overwrite, mute: true }
    }
}

/// Progress of one upload session: the server-issued session token and the
/// byte offset the server has acknowledged so far.
pub struct USCursor {
    pub session_id: String,
    pub offset: u64,
}

/// Request metadata for one session append: the cursor naming the session
/// and the offset at which the body's bytes continue the file.
pub struct USAppend {
    pub cursor: USCursor,
}

/// Request metadata for the session finish: the commit instructions together
/// with the cursor; the finish call consumes the session.
pub struct USFinish {
    pub commit: Upload,
    pub cursor: USCursor,
}

/// Request metadata for deleting a path.
pub struct Delete {
    pub path: String,
    pub parent_rev: Option<String>,
}

impl Delete {
    /// A delete of `path` unconditionally: no parent revision is pinned, so
    /// the server deletes whatever currently lives there.
    pub fn new(path: String) -> (r: Delete)
        ensures
            r.path == path,
            r.parent_rev is None,
    {
        Delete { path, parent_rev: None }
    }
}

/// Request metadata for downloading a path.
pub struct Download {
    pub path: String,
}

/// A shared link through which a folder may be listed, with an optional
/// password.
pub struct SharedLink {
    pub url: String,
    pub password: String,
}

/// Request metadata for listing a folder.
pub struct ListFolder {
    pub path: String,
    pub shared_link: Option<SharedLink>,
    pub limit: Option<u32>,
    pub include_deleted: bool,
    pub include_has_explicit_shared_members: bool,
    pub include_mounted_folders: bool,
    pub include_non_downloadable_files: bool,
    pub recursive: bool,
}

impl Default for ListFolder {
    /// The service's defaults for a folder listing: the root path, not
    /// recursive, deleted entries and shared-member details left out,
    /// mounted folders and non-downloadable files included, no explicit
    /// limit and no shared link.
    fn default() -> (r: Self)
        ensures
            r.path@ == Seq::<char>::empty(),
            !r.recursive,
            !r.include_deleted,
            !r.include_has_explicit_shared_members,
            r.include_mounted_folders,
            r.include_non_downloadable_files,
            r.limit is None,
            r.shared_link is None,
    {
        ListFolder {
            path: String::new(),
            recursive: false,
            include_deleted: false,
            include_has_explicit_shared_members: false,
            include_mounted_folders: true,
            limit: None,
            shared_link: None,
            include_non_downloadable_files: true,
        }
    }
}

/// Request metadata for continuing a folder listing from a server-issued
/// pagination cursor.
pub struct ListFolderContinue {
    pub cursor: String,
}

} // verus!
