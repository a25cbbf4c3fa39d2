use vstd::prelude::*;

verus! {

/// The three standard timestamps of a filesystem object, each given as
/// nanoseconds since the epoch.  A pre-epoch timestamp is represented
/// as zero: it is older than any reachable threshold either way.
#[derive(Clone, Copy, Debug, PartialEq, Eq)]
pub struct FileMeta {
    /// When the file was last accessed, in nanoseconds since the epoch.
    pub accessed_ns: u128,
    /// When the file was last modified, in nanoseconds since the epoch.
    pub modified_ns: u128,
    /// When the file was created, in nanoseconds since the epoch.
    pub created_ns: u128,
}

/// One entry of a directory listing.
///
/// A `File` is any non-directory leaf; `meta` is `None` when its metadata
/// could not be read.  A `Dir` carries the listing of its own entries; a
/// directory whose listing could not be read is treated as having no
/// entries, so it is represented by an empty listing.
#[derive(Debug)]
pub enum FsEntry {
    File { name: String, meta: Option<FileMeta> },
    Dir { name: String, entries: Vec<FsEntry> },
}

} // verus!
