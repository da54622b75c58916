//! Files, and the name and metadata views that a file may carry.

use crate::text::{from_utf8_lossy, utf8_lossy};
use crate::tsk::fs::TskFs;
use crate::tsk::handle::Handle;
use std::marker::PhantomData;
use vstd::prelude::*;

verus! {

/// The filename component of a file, as the engine stores it.
#[derive(Debug)]
pub struct TskFsName {
    /// The bytes of the name, without a terminator. They need not be text.
    pub name: Vec<u8>,
}

impl View for TskFsName {
    type V = Seq<u8>;

    open spec fn view(&self) -> Seq<u8> {
        self.name@
    }
}

impl TskFsName {
    /// Returns the name of the file as text, with what is not UTF-8 replaced.
    pub fn get_name(&self) -> (name: String)
        ensures
            name@ == utf8_lossy(self@),
            vstd::utf8::valid_utf8(self@) ==> name@ == vstd::utf8::decode_utf8(self@),
    {
        from_utf8_lossy(self.name.as_slice())
    }
}

/// The metadata of a file. Each time is given in seconds since
/// Jan 1, 1970 UTC, with the nanoseconds beyond the second beside it.
#[derive(Clone, Copy, Debug, PartialEq, Eq, Structural)]
pub struct TskFsMeta {
    pub addr: u64,
    pub size: i64,
    pub mode: u32,
    pub atime: i64,
    pub atime_nano: u32,
    pub crtime: i64,
    pub crtime_nano: u32,
    pub ctime: i64,
    pub ctime_nano: u32,
    pub mtime: i64,
    pub mtime_nano: u32,
}

impl TskFsMeta {
    /// Address of the metadata structure for this file.
    pub fn addr(&self) -> (addr: u64)
        ensures
            addr == self.addr,
    {
        self.addr
    }

    /// Size of the file content in bytes.
    pub fn size(&self) -> (size: i64)
        ensures
            size == self.size,
    {
        self.size
    }

    /// Last file content accessed time.
    pub fn atime(&self) -> (atime: i64)
        ensures
            atime == self.atime,
    {
        self.atime
    }

    /// Nano-second resolution in addition to atime.
    pub fn atime_nano(&self) -> (atime_nano: u32)
        ensures
            atime_nano == self.atime_nano,
    {
        self.atime_nano
    }

    /// Created time.
    pub fn crtime(&self) -> (crtime: i64)
        ensures
            crtime == self.crtime,
    {
        self.crtime
    }

    /// Nano-second resolution in addition to crtime.
    pub fn crtime_nano(&self) -> (crtime_nano: u32)
        ensures
            crtime_nano == self.crtime_nano,
    {
        self.crtime_nano
    }

    /// Last file / metadata status change time.
    pub fn ctime(&self) -> (ctime: i64)
        ensures
            ctime == self.ctime,
    {
        self.ctime
    }

    /// Nano-second resolution in addition to ctime.
    pub fn ctime_nano(&self) -> (ctime_nano: u32)
        ensures
            ctime_nano == self.ctime_nano,
    {
        self.ctime_nano
    }

    /// Unix-style permissions.
    pub fn mode(&self) -> (mode: u32)
        ensures
            mode == self.mode,
    {
        self.mode
    }

    /// Last file content modification time.
    pub fn mtime(&self) -> (mtime: i64)
        ensures
            mtime == self.mtime,
    {
        self.mtime
    }

    /// Nano-second resolution in addition to mtime.
    pub fn mtime_nano(&self) -> (mtime_nano: u32)
        ensures
            mtime_nano == self.mtime_nano,
    {
        self.mtime_nano
    }
}

/// What was read from one of the engine's file structures.
///
/// `ptr` is the address of the structure, null where the engine handed none
/// back; then the other fields mean nothing. `name` and `meta` are absent
/// where the structure holds no name or no metadata.
#[derive(Debug)]
pub struct FileInfo {
    pub ptr: usize,
    pub name: Option<TskFsName>,
    pub meta: Option<TskFsMeta>,
}

/// What a file structure held, as values.
pub struct FileView {
    pub ptr: usize,
    pub name: Option<Seq<u8>>,
    pub meta: Option<TskFsMeta>,
}

impl View for FileInfo {
    type V = FileView;

    open spec fn view(&self) -> FileView {
        FileView {
            ptr: self.ptr,
            name: match self.name {
                Some(name) => Some(name@),
                None => None,
            },
            meta: self.meta,
        }
    }
}

/// A filesystem object: a file, a directory or something special.
///
/// A file either owns its engine resource, which must then be released once,
/// or is a view of a resource that a directory owns, which must not be
/// released on its own.
#[derive(Debug)]
pub struct TskFsFile<'a> {
    inner: Handle,
    owned: bool,
    name: Option<TskFsName>,
    meta: Option<TskFsMeta>,
    _marker: PhantomData<&'a TskFs<'a>>,
}

impl<'a> View for TskFsFile<'a> {
    type V = FileView;

    /// The address of the engine's structure and what it held.
    closed spec fn view(&self) -> FileView {
        FileView {
            ptr: self.inner.spec_addr(),
            name: match self.name {
                Some(name) => Some(name@),
                None => None,
            },
            meta: self.meta,
        }
    }
}

impl<'a> TskFsFile<'a> {
    /// Whether this file owns its engine resource.
    pub closed spec fn spec_owned(&self) -> bool {
        self.owned
    }

    pub(crate) fn new(inner: Handle, owned: bool, info: FileInfo) -> (file: Self)
        requires
            inner.spec_addr() == info.ptr,
        ensures
            file@ == info@,
            file.spec_owned() == owned,
    {
        TskFsFile { inner, owned, name: info.name, meta: info.meta, _marker: PhantomData }
    }

    /// Wraps what was read from a file structure, unless there was none.
    pub(crate) fn from_info(info: FileInfo, owned: bool) -> (file: Option<Self>)
        ensures
            info.ptr == 0 <==> file is None,
            file matches Some(f) ==> f@ == info@ && f.spec_owned() == owned,
    {
        match Handle::new(info.ptr) {
            Some(inner) => Some(Self::new(inner, owned, info)),
            None => None,
        }
    }

    /// The address of the engine's file structure. It is never null.
    pub fn ptr(&self) -> (ptr: usize)
        ensures
            ptr == self@.ptr,
            ptr != 0,
    {
        self.inner.addr()
    }

    /// Whether this file owns its engine resource.
    #[verifier::when_used_as_spec(spec_owned)]
    pub fn owned(&self) -> (owned: bool)
        ensures
            owned == self.spec_owned(),
    {
        self.owned
    }

    /// Returns the name of the file, or None if the file carries none, as
    /// when it was opened by metadata address.
    pub fn get_name(&self) -> (name: Option<&TskFsName>)
        ensures
            name is None <==> self@.name is None,
            name matches Some(n) ==> self@.name == Some(n@),
    {
        self.name.as_ref()
    }

    /// Returns the metadata of the file, or None if the engine could not
    /// load any.
    pub fn get_meta(&self) -> (meta: Option<TskFsMeta>)
        ensures
            meta == self@.meta,
    {
        self.meta
    }

    /// Gives the handle up. Returns the address to hand to the engine's
    /// close call for files, or None for a view, which has nothing to close.
    pub fn release(self) -> (close: Option<usize>)
        ensures
            self.spec_owned() ==> close == Some(self@.ptr),
            !self.spec_owned() ==> close is None,
            self@.ptr != 0,
    {
        let addr = self.inner.addr();
        if self.owned {
            Some(addr)
        } else {
            None
        }
    }
}

} // verus!
