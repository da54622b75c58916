//! Filesystems found inside an image.

use crate::text::{from_utf8_lossy, utf8_lossy};
use crate::tsk::dir::{DirInfo, TskFsDir};
use crate::tsk::error::{bridges, try_get_tsk_error, TskErrorKind, TskResult};
use crate::tsk::file::{FileInfo, TskFsFile};
use crate::tsk::handle::{get_tsk_result, Handle};
use crate::tsk::image::TskImage;
use crate::tsk::path::TskPath;
use crate::tsk::walk::WalkFlags;
use std::marker::PhantomData;
use vstd::prelude::*;

verus! {

/// What was read from the engine's filesystem structure.
///
/// `ptr` is the address of the structure, null where the engine handed none
/// back; then the other fields mean nothing.
#[derive(Clone, Copy, Debug, PartialEq, Eq, Structural)]
pub struct FsInfo {
    pub ptr: usize,
    /// Metadata address of the root directory.
    pub root_inum: u64,
    /// The tag of the filesystem's type.
    pub ftype: u32,
}

/// A parsed filesystem. It owns the engine's filesystem resource and borrows
/// the image it was found in.
#[derive(Debug)]
pub struct TskFs<'a> {
    inner: Handle,
    root_inum: u64,
    ftype: u32,
    _marker: PhantomData<&'a TskImage>,
}

impl<'a> View for TskFs<'a> {
    type V = FsInfo;

    /// The address of the engine's structure and what it held.
    closed spec fn view(&self) -> FsInfo {
        FsInfo { ptr: self.inner.spec_addr(), root_inum: self.root_inum, ftype: self.ftype }
    }
}

impl<'a> TskFs<'a> {
    /// What a walk started through `walk_dir` visits: allocated and
    /// unallocated entries, at every depth.
    pub open spec fn walk_flags() -> WalkFlags {
        WalkFlags { allocated: true, unallocated: true, recurse: true }
    }

    /// Whether `name` is what `get_fs_type` makes of the bytes that the
    /// engine's table of type names held.
    pub open spec fn named<E: FnOnce() -> Option<Vec<u8>>>(
        entry: Option<Vec<u8>>,
        error_get: E,
        name: TskResult<String>,
    ) -> bool {
        match entry {
            Some(bytes) => {
                &&& name matches Ok(text)
                &&& text@ == utf8_lossy(bytes@)
                &&& vstd::utf8::valid_utf8(bytes@) ==> text@ == vstd::utf8::decode_utf8(bytes@)
            },
            None => name matches Err(error) && bridges(
                error_get,
                TskErrorKind::InternalConsistency,
                error,
            ),
        }
    }

    /// Whether `opened` is what opening a directory makes of the directory
    /// structure `info` that the engine handed back, where a failure is of
    /// `kind`.
    pub open spec fn opened_dir<'b, E: FnOnce() -> Option<Vec<u8>>>(
        info: DirInfo,
        kind: TskErrorKind,
        error_get: E,
        opened: TskResult<TskFsDir<'b>>,
    ) -> bool {
        if info.ptr != 0 {
            opened matches Ok(dir) && dir@ == info@
        } else {
            opened matches Err(error) && bridges(error_get, kind, error)
        }
    }

    /// Whether `opened` is what `open_file` makes of the file structure
    /// `info` that the engine handed back.
    pub open spec fn opened_file<'b, E: FnOnce() -> Option<Vec<u8>>>(
        info: FileInfo,
        error_get: E,
        opened: TskResult<TskFsFile<'b>>,
    ) -> bool {
        if info.ptr != 0 {
            opened matches Ok(file) && file@ == info@ && file.spec_owned()
        } else {
            opened matches Err(error) && bridges(error_get, TskErrorKind::NotFound, error)
        }
    }

    /// Whether `walked` is what `walk_dir` makes of the status that the
    /// engine's walk ended with.
    pub open spec fn walked<E: FnOnce() -> Option<Vec<u8>>>(
        status: u8,
        error_get: E,
        walked: TskResult<()>,
    ) -> bool {
        if status == 0 {
            walked is Ok
        } else {
            walked matches Err(error) && bridges(error_get, TskErrorKind::Walk, error)
        }
    }

    /// A directory is handed out exactly where the engine's address is not
    /// null, and then wraps that address and reports what the engine's
    /// structure held; every failure is of the kind that the opening names.
    pub proof fn lemma_opened_dir<'b, E: FnOnce() -> Option<Vec<u8>>>(
        info: DirInfo,
        kind: TskErrorKind,
        error_get: E,
        opened: TskResult<TskFsDir<'b>>,
    )
        requires
            Self::opened_dir(info, kind, error_get, opened),
        ensures
            opened is Ok <==> info.ptr != 0,
            opened matches Ok(dir) ==> dir@.ptr != 0 && dir@ == info@,
            opened matches Err(error) ==> error.spec_kind() == kind,
    {
    }

    /// A file is handed out exactly where the engine's address is not null,
    /// and then wraps that address and reports what the engine's structure
    /// held; every failure says that the path was not found.
    pub proof fn lemma_opened_file<'b, E: FnOnce() -> Option<Vec<u8>>>(
        info: FileInfo,
        error_get: E,
        opened: TskResult<TskFsFile<'b>>,
    )
        requires
            Self::opened_file(info, error_get, opened),
        ensures
            opened is Ok <==> info.ptr != 0,
            opened matches Ok(file) ==> file@.ptr != 0 && file@ == info@,
            opened matches Err(error) ==> error.spec_kind() == TskErrorKind::NotFound,
    {
    }

    pub(crate) fn new(inner: Handle, info: FsInfo) -> (fs: Self)
        requires
            inner.spec_addr() == info.ptr,
        ensures
            fs@ == info,
    {
        TskFs { inner, root_inum: info.root_inum, ftype: info.ftype, _marker: PhantomData }
    }

    /// The address of the engine's filesystem structure. It is never null.
    pub fn ptr(&self) -> (ptr: usize)
        ensures
            ptr == self@.ptr,
            ptr != 0,
    {
        self.inner.addr()
    }

    /// The metadata address of the root directory.
    pub fn root_inum(&self) -> (root_inum: u64)
        ensures
            root_inum == self@.root_inum,
    {
        self.root_inum
    }

    /// The tag of the filesystem's type.
    pub fn ftype(&self) -> (ftype: u32)
        ensures
            ftype == self@.ftype,
    {
        self.ftype
    }

    /// Returns the string name of a file system type id, e.g. "ntfs".
    ///
    /// `toname` looks the type tag up in the engine's table of names and
    /// hands back the bytes of the name, or None where the table has no entry.
    pub fn get_fs_type<N, E>(&self, toname: N, error_get: E) -> (name: TskResult<String>) where
        N: FnOnce(u32) -> Option<Vec<u8>>,
        E: FnOnce() -> Option<Vec<u8>>,

        requires
            call_requires(toname, (self@.ftype,)),
            forall|entry: Option<Vec<u8>>| #[trigger]
                call_ensures(toname, (self@.ftype,), entry) && entry is None ==> call_requires(
                    error_get,
                    (),
                ),
        ensures
            exists|entry: Option<Vec<u8>>| #[trigger]
                call_ensures(toname, (self@.ftype,), entry) && Self::named(entry, error_get, name),
    {
        let ty = self.ftype;
        match toname(ty) {
            Some(bytes) => Ok(from_utf8_lossy(bytes.as_slice())),
            None => Err(try_get_tsk_error(TskErrorKind::InternalConsistency, error_get)),
        }
    }

    /// Opens a directory given its path.
    ///
    /// `dir_open` asks the engine to open the directory at the encoded path
    /// within the filesystem at the given address.
    pub fn open_dir<C, E>(
        &self,
        path: &TskPath,
        dir_open: C,
        error_get: E,
    ) -> (dir: TskResult<TskFsDir<'_>>) where
        C: FnOnce(usize, &TskPath) -> DirInfo,
        E: FnOnce() -> Option<Vec<u8>>,

        requires
            call_requires(dir_open, (self@.ptr, path)),
            forall|info: DirInfo| #[trigger]
                call_ensures(dir_open, (self@.ptr, path), info) && info.ptr == 0 ==> call_requires(
                    error_get,
                    (),
                ),
        ensures
            exists|info: DirInfo| #[trigger]
                call_ensures(dir_open, (self@.ptr, path), info) && Self::opened_dir(
                    info,
                    TskErrorKind::NotFound,
                    error_get,
                    dir,
                ),
    {
        let result = dir_open(self.inner.addr(), path);
        match get_tsk_result(result.ptr, TskErrorKind::NotFound, error_get) {
            Ok(inner) => Ok(TskFsDir::new(inner, result)),
            Err(error) => Err(error),
        }
    }

    /// Opens a directory given its metadata address.
    ///
    /// `dir_open_meta` asks the engine to open the directory with the given
    /// metadata address within the filesystem at the given address.
    pub fn open_dir_meta<C, E>(
        &self,
        meta: u64,
        dir_open_meta: C,
        error_get: E,
    ) -> (dir: TskResult<TskFsDir<'_>>) where
        C: FnOnce(usize, u64) -> DirInfo,
        E: FnOnce() -> Option<Vec<u8>>,

        requires
            call_requires(dir_open_meta, (self@.ptr, meta)),
            forall|info: DirInfo| #[trigger]
                call_ensures(dir_open_meta, (self@.ptr, meta), info) && info.ptr == 0
                    ==> call_requires(error_get, ()),
        ensures
            exists|info: DirInfo| #[trigger]
                call_ensures(dir_open_meta, (self@.ptr, meta), info) && Self::opened_dir(
                    info,
                    TskErrorKind::Open,
                    error_get,
                    dir,
                ),
    {
        let result = dir_open_meta(self.inner.addr(), meta);
        match get_tsk_result(result.ptr, TskErrorKind::Open, error_get) {
            Ok(inner) => Ok(TskFsDir::new(inner, result)),
            Err(error) => Err(error),
        }
    }

    /// Opens a file given its path.
    ///
    /// `file_open` asks the engine to open the object at the encoded path
    /// within the filesystem at the given address. The file owns what the
    /// engine allocated for it.
    pub fn open_file<C, E>(
        &self,
        path: &TskPath,
        file_open: C,
        error_get: E,
    ) -> (file: TskResult<TskFsFile<'_>>) where
        C: FnOnce(usize, &TskPath) -> FileInfo,
        E: FnOnce() -> Option<Vec<u8>>,

        requires
            call_requires(file_open, (self@.ptr, path)),
            forall|info: FileInfo| #[trigger]
                call_ensures(file_open, (self@.ptr, path), info) && info.ptr == 0
                    ==> call_requires(error_get, ()),
        ensures
            exists|info: FileInfo| #[trigger]
                call_ensures(file_open, (self@.ptr, path), info) && Self::opened_file(
                    info,
                    error_get,
                    file,
                ),
    {
        let result = file_open(self.inner.addr(), path);
        match get_tsk_result(result.ptr, TskErrorKind::NotFound, error_get) {
            Ok(inner) => Ok(TskFsFile::new(inner, true, result)),
            Err(error) => Err(error),
        }
    }

    /// Walks the directory with metadata address `dir_addr` and everything
    /// below it.
    ///
    /// `dir_walk` asks the engine to walk from that directory within the
    /// filesystem at the given address, visiting what the flags name, and
    /// hands back the status the walk ended with: zero on success. The engine
    /// reports each entry while `dir_walk` runs; what was delivered before a
    /// failure stays delivered.
    pub fn walk_dir<W, E>(
        &mut self,
        dir_addr: u64,
        dir_walk: W,
        error_get: E,
    ) -> (walked: TskResult<()>) where
        W: FnOnce(usize, u64, WalkFlags) -> u8,
        E: FnOnce() -> Option<Vec<u8>>,

        requires
            call_requires(dir_walk, (old(self)@.ptr, dir_addr, Self::walk_flags())),
            forall|status: u8| #[trigger]
                call_ensures(dir_walk, (old(self)@.ptr, dir_addr, Self::walk_flags()), status)
                    && status != 0 ==> call_requires(error_get, ()),
        ensures
            final(self)@ == old(self)@,
            exists|status: u8| #[trigger]
                call_ensures(dir_walk, (old(self)@.ptr, dir_addr, Self::walk_flags()), status)
                    && Self::walked(status, error_get, walked),
    {
        let flags = WalkFlags { allocated: true, unallocated: true, recurse: true };
        let result = dir_walk(self.inner.addr(), dir_addr, flags);
        if result == 0 {
            Ok(())
        } else {
            Err(try_get_tsk_error(TskErrorKind::Walk, error_get))
        }
    }

    /// Gives the filesystem up. Returns the address to hand to the engine's
    /// close call for filesystems.
    pub fn release(self) -> (close: usize)
        ensures
            close == self@.ptr,
            close != 0,
    {
        self.inner.addr()
    }
}

} // verus!
