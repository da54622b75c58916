//! The recursive walk: what the engine is asked to visit, and what happens
//! each time it reports an entry.
//!
//! The engine walks synchronously and pushes each entry it finds into a
//! callback. That callback delivers the entry to the caller's visitor and tells
//! the engine to go on, whatever the visitor did: stopping early and skipping
//! a subtree are not offered here.

use crate::tsk::file::{FileInfo, FileView, TskFsFile};
use vstd::prelude::*;

verus! {

/// Which entries the engine is asked to visit.
#[derive(Clone, Copy, Debug, PartialEq, Eq, Structural)]
pub struct WalkFlags {
    /// Visit allocated entries.
    pub allocated: bool,
    /// Visit unallocated entries.
    pub unallocated: bool,
    /// Descend into the directories that are found.
    pub recurse: bool,
}

/// What the engine is told after an entry has been delivered.
#[derive(Clone, Copy, Debug, PartialEq, Eq, Structural)]
pub enum WalkRet {
    /// Go on with the next entry.
    Cont,
    /// End the walk.
    Stop,
    /// End the walk and report a failure.
    Error,
}

/// Whether `visitor` may have been called once on a file that owns the
/// structure described by `file`, with `path`.
pub open spec fn visited<'a, F: FnMut(TskFsFile<'a>, &[u8])>(
    visitor: F,
    file: FileView,
    path: &[u8],
) -> bool {
    exists|entry: TskFsFile<'a>|
        entry@ == file && entry.spec_owned() && #[trigger] call_ensures(visitor, (entry, path), ())
}

/// Delivers one entry of a walk to the visitor and tells the engine to go on.
///
/// `file` is what was read from the entry's file structure and `path` the
/// names of the directories that lead to the entry, each followed by a
/// separator, as raw bytes. The file handed to the visitor owns its structure
/// and is valid for that one call.
pub fn walk_callback<'a, F>(visitor: &mut F, file: FileInfo, path: &[u8]) -> (ret: WalkRet) where
    F: FnMut(TskFsFile<'a>, &[u8]),

    requires
        file.ptr != 0,
        forall|entry: TskFsFile<'a>|
            entry@ == file@ && entry.spec_owned() ==> call_requires(*old(visitor), (entry, path)),
    ensures
        ret == WalkRet::Cont,
        visited(*old(visitor), file@, path),
{
    match TskFsFile::from_info(file, true) {
        Some(entry) => {
            visitor(entry, path);
        },
        None => {},
    }
    WalkRet::Cont
}

} // verus!
