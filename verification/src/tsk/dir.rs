//! Directories and the enumeration of their entries.

use crate::tsk::file::{FileInfo, FileView, TskFsFile};
use crate::tsk::fs::TskFs;
use crate::tsk::handle::Handle;
use std::marker::PhantomData;
use vstd::prelude::*;

verus! {

/// What was read from one of the engine's directory structures.
///
/// `ptr` is the address of the structure, null where the engine handed none
/// back; then the other fields mean nothing.
#[derive(Debug)]
pub struct DirInfo {
    pub ptr: usize,
    /// Metadata address of the directory.
    pub addr: u64,
    /// Number of entries that were loaded when the directory was opened.
    pub names_used: usize,
    /// The directory's own file structure; its address is null where the
    /// directory has none.
    pub fs_file: FileInfo,
}

/// What a directory structure held, as values.
pub struct DirView {
    pub ptr: usize,
    pub addr: u64,
    pub names_used: usize,
    pub fs_file: Option<FileView>,
}

impl View for DirInfo {
    type V = DirView;

    open spec fn view(&self) -> DirView {
        DirView {
            ptr: self.ptr,
            addr: self.addr,
            names_used: self.names_used,
            fs_file: if self.fs_file.ptr != 0 {
                Some(self.fs_file@)
            } else {
                None
            },
        }
    }
}

/// Whether a lookup of slot `idx` in the directory at `dir` may hand back the
/// non-null file structure described by `slot`.
pub open spec fn slot_holds<G: Fn(usize, usize) -> FileInfo>(
    dir_get: G,
    dir: usize,
    idx: usize,
    slot: FileView,
) -> bool {
    slot.ptr != 0 && exists|info: FileInfo| #[trigger]
        call_ensures(dir_get, (dir, idx), info) && info@ == slot
}

/// Whether a lookup of slot `idx` in the directory at `dir` may hand back no
/// file.
pub open spec fn slot_empty<G: Fn(usize, usize) -> FileInfo>(
    dir_get: G,
    dir: usize,
    idx: usize,
) -> bool {
    exists|info: FileInfo| #[trigger] call_ensures(dir_get, (dir, idx), info) && info.ptr == 0
}

/// Whether `files` is a complete pass over the directory at `dir`: the file
/// at each position owns what a lookup of that slot handed back, and the
/// lookup of the slot after the last one handed back nothing. A pass also
/// ends where no further index exists.
pub open spec fn is_listing<'a, G: Fn(usize, usize) -> FileInfo>(
    dir_get: G,
    dir: usize,
    files: Seq<TskFsFile<'a>>,
) -> bool {
    &&& files.len() <= usize::MAX
    &&& forall|i: int|
        0 <= i < files.len() ==> (#[trigger] files[i]).spec_owned() && slot_holds(
            dir_get,
            dir,
            i as usize,
            files[i]@,
        )
    &&& files.len() < usize::MAX ==> slot_empty(dir_get, dir, files.len() as usize)
}

/// Whether every lookup of a slot in the directory at `dir` hands back the
/// same thing each time.
pub open spec fn lookups_stable<G: Fn(usize, usize) -> FileInfo>(dir_get: G, dir: usize) -> bool {
    forall|idx: usize, a: FileInfo, b: FileInfo|
        #![trigger call_ensures(dir_get, (dir, idx), a), call_ensures(dir_get, (dir, idx), b)]
        call_ensures(dir_get, (dir, idx), a) && call_ensures(dir_get, (dir, idx), b) ==> a@ == b@
}

/// Whether the lookups in the directory at `dir` hand back a file for
/// exactly the slots below `count`.
pub open spec fn lookups_match_count<G: Fn(usize, usize) -> FileInfo>(
    dir_get: G,
    dir: usize,
    count: usize,
) -> bool {
    forall|idx: usize, info: FileInfo| #[trigger]
        call_ensures(dir_get, (dir, idx), info) ==> (info.ptr != 0 <==> idx < count)
}

/// A pass over a directory has as many files as the directory counts
/// entries, provided the engine's lookups agree with its count.
pub proof fn lemma_listing_len<'a, G: Fn(usize, usize) -> FileInfo>(
    dir_get: G,
    dir: usize,
    count: usize,
    files: Seq<TskFsFile<'a>>,
)
    requires
        is_listing(dir_get, dir, files),
        lookups_match_count(dir_get, dir, count),
    ensures
        files.len() == count,
{
    if files.len() < count {
        let info = choose|info: FileInfo| #[trigger]
            call_ensures(dir_get, (dir, files.len() as usize), info) && info.ptr == 0;
        assert(info.ptr != 0);
    } else if files.len() > count {
        let last = files[count as int];
        assert(last.spec_owned());
        let info = choose|info: FileInfo| #[trigger]
            call_ensures(dir_get, (dir, count), info) && info@ == last@;
        assert(info.ptr != 0);
    }
}

/// Two passes over the same directory yield the same files in the same
/// order, provided the engine's lookups are stable.
pub proof fn lemma_listing_unique<'a, G: Fn(usize, usize) -> FileInfo>(
    dir_get: G,
    dir: usize,
    first: Seq<TskFsFile<'a>>,
    second: Seq<TskFsFile<'a>>,
)
    requires
        is_listing(dir_get, dir, first),
        is_listing(dir_get, dir, second),
        lookups_stable(dir_get, dir),
    ensures
        first.len() == second.len(),
        forall|i: int| 0 <= i < first.len() ==> first[i]@ == second[i]@,
{
    lemma_listing_prefix(dir_get, dir, first, second);
    lemma_listing_prefix(dir_get, dir, second, first);
    assert forall|i: int| 0 <= i < first.len() implies first[i]@ == second[i]@ by {
        assert(first[i].spec_owned());
        assert(second[i].spec_owned());
        let a = choose|info: FileInfo| #[trigger]
            call_ensures(dir_get, (dir, i as usize), info) && info@ == first[i]@;
        let b = choose|info: FileInfo| #[trigger]
            call_ensures(dir_get, (dir, i as usize), info) && info@ == second[i]@;
        assert(a@ == b@);
    }
}

/// A pass over a directory is no longer than another pass over it.
proof fn lemma_listing_prefix<'a, G: Fn(usize, usize) -> FileInfo>(
    dir_get: G,
    dir: usize,
    first: Seq<TskFsFile<'a>>,
    second: Seq<TskFsFile<'a>>,
)
    requires
        is_listing(dir_get, dir, first),
        is_listing(dir_get, dir, second),
        lookups_stable(dir_get, dir),
    ensures
        first.len() <= second.len(),
{
    if first.len() > second.len() {
        let n = second.len() as int;
        assert(first[n].spec_owned());
        let a = choose|info: FileInfo| #[trigger]
            call_ensures(dir_get, (dir, n as usize), info) && info@ == first[n]@;
        let b = choose|info: FileInfo| #[trigger]
            call_ensures(dir_get, (dir, n as usize), info) && info.ptr == 0;
        assert(a@ == b@);
    }
}

/// An open directory. It owns the engine's directory resource and borrows the
/// filesystem it belongs to.
#[derive(Debug)]
pub struct TskFsDir<'a> {
    inner: Handle,
    addr: u64,
    len: usize,
    file: Option<TskFsFile<'a>>,
    _marker: PhantomData<&'a TskFs<'a>>,
}

impl<'a> View for TskFsDir<'a> {
    type V = DirView;

    /// The address of the engine's structure and what it held.
    closed spec fn view(&self) -> DirView {
        DirView {
            ptr: self.inner.spec_addr(),
            addr: self.addr,
            names_used: self.len,
            fs_file: match self.file {
                Some(file) => Some(file@),
                None => None,
            },
        }
    }
}

impl<'a> TskFsDir<'a> {
    #[verifier::type_invariant]
    spec fn file_is_a_view(&self) -> bool {
        self.file matches Some(file) ==> !file.spec_owned()
    }

    pub(crate) fn new(inner: Handle, info: DirInfo) -> (dir: Self)
        requires
            inner.spec_addr() == info.ptr,
        ensures
            dir@ == info@,
    {
        let file = TskFsFile::from_info(info.fs_file, false);
        TskFsDir { inner, addr: info.addr, len: info.names_used, file, _marker: PhantomData }
    }

    /// The address of the engine's directory structure. It is never null.
    pub fn ptr(&self) -> (ptr: usize)
        ensures
            ptr == self@.ptr,
            ptr != 0,
    {
        self.inner.addr()
    }

    /// The metadata address of the directory.
    pub fn addr(&self) -> (addr: u64)
        ensures
            addr == self@.addr,
    {
        self.addr
    }

    /// Whether the directory has a file structure of its own.
    pub fn has_file(&self) -> (has: bool)
        ensures
            has == self@.fs_file is Some,
    {
        self.file.is_some()
    }

    /// The directory's own file. It is a view into the directory: it does
    /// not own its structure and cannot outlive the directory.
    pub fn get_file(&self) -> (file: &TskFsFile<'a>)
        requires
            self@.fs_file is Some,
        ensures
            Some(file@) == self@.fs_file,
            !file.spec_owned(),
    {
        proof {
            use_type_invariant(self);
        }
        self.file.as_ref().unwrap()
    }

    /// The number of entries that were loaded when the directory was opened.
    pub fn len(&self) -> (len: usize)
        ensures
            len == self@.names_used,
    {
        self.len
    }

    /// Enumerates the entries of the directory, in the engine's order.
    ///
    /// `dir_get` looks up the slot with the given index in the directory at
    /// the given address and hands back what its file structure holds, with a
    /// null address where the slot has no file. Each file owns what the engine
    /// allocated for it. Each call makes a fresh pass from the first slot, and
    /// the pass ends at the first slot without a file, whatever the
    /// directory's count says.
    pub fn iter_entries<G>(&mut self, dir_get: G) -> (files: Vec<TskFsFile<'a>>) where
        G: Fn(usize, usize) -> FileInfo,

        requires
            forall|idx: usize| call_requires(dir_get, (old(self)@.ptr, idx)),
        ensures
            final(self)@ == old(self)@,
            is_listing(dir_get, old(self)@.ptr, files@),
    {
        let mut files: Vec<TskFsFile<'a>> = Vec::new();
        let mut entries = TskFsDirIterator::new(&*self);
        loop
            invariant
                entries.spec_dir() == self@,
                entries.spec_idx() == files.len(),
                forall|idx: usize| call_requires(dir_get, (self@.ptr, idx)),
                forall|i: int|
                    0 <= i < files.len() ==> (#[trigger] files[i]).spec_owned() && slot_holds(
                        dir_get,
                        self@.ptr,
                        i as usize,
                        files[i]@,
                    ),
            ensures
                is_listing(dir_get, self@.ptr, files@),
            decreases usize::MAX - entries.spec_idx(),
        {
            match entries.next(&dir_get) {
                Some(file) => {
                    files.push(file);
                },
                None => {
                    break ;
                },
            }
        }
        files
    }

    /// Gives the directory up. Returns the address to hand to the engine's
    /// close call for directories.
    pub fn release(self) -> (close: usize)
        ensures
            close == self@.ptr,
            close != 0,
    {
        self.inner.addr()
    }
}

/// A pass over the entries of a directory, one slot at a time.
#[derive(Debug)]
pub struct TskFsDirIterator<'d, 'a> {
    idx: usize,
    dir: &'d TskFsDir<'a>,
}

impl<'d, 'a> TskFsDirIterator<'d, 'a> {
    /// The index of the slot that is looked up next.
    pub closed spec fn spec_idx(&self) -> usize {
        self.idx
    }

    /// The directory that is listed.
    pub closed spec fn spec_dir(&self) -> DirView {
        self.dir@
    }

    /// Starts a pass at the first slot of `dir`.
    pub fn new(dir: &'d TskFsDir<'a>) -> (entries: Self)
        ensures
            entries.spec_idx() == 0,
            entries.spec_dir() == dir@,
    {
        TskFsDirIterator { idx: 0, dir }
    }

    /// Looks the next slot up with `dir_get` and moves past it if it holds a
    /// file. The pass is over once a slot holds none; the index then stays
    /// where it is.
    pub fn next<G>(&mut self, dir_get: &G) -> (file: Option<TskFsFile<'a>>) where
        G: Fn(usize, usize) -> FileInfo,

        requires
            old(self).spec_idx() < usize::MAX ==> call_requires(
                *dir_get,
                (old(self).spec_dir().ptr, old(self).spec_idx()),
            ),
        ensures
            final(self).spec_dir() == old(self).spec_dir(),
            file matches Some(entry) ==> old(self).spec_idx() < usize::MAX
                && final(self).spec_idx() == old(self).spec_idx() + 1
                && entry.spec_owned()
                && slot_holds(*dir_get, old(self).spec_dir().ptr, old(self).spec_idx(), entry@),
            file is None ==> final(self).spec_idx() == old(self).spec_idx(),
            file is None && old(self).spec_idx() < usize::MAX ==> slot_empty(
                *dir_get,
                old(self).spec_dir().ptr,
                old(self).spec_idx(),
            ),
    {
        if self.idx == usize::MAX {
            return None;
        }
        let slot = dir_get(self.dir.ptr(), self.idx);
        let file = TskFsFile::from_info(slot, true);
        if file.is_some() {
            self.idx = self.idx + 1;
        }
        file
    }

    /// The number of entries that the directory counts, as both bounds.
    pub fn size_hint(&self) -> (bounds: (usize, Option<usize>))
        ensures
            bounds == (self.spec_dir().names_used, Some(self.spec_dir().names_used)),
    {
        let len = self.dir.len();
        (len, Some(len))
    }
}

} // verus!
