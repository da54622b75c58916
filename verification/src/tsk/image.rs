//! Disk images, and the engine's version.

use crate::text::{from_utf8_lossy, utf8_lossy};
use crate::tsk::error::{bridges, TskErrorKind, TskResult};
use crate::tsk::fs::{FsInfo, TskFs};
use crate::tsk::handle::{get_tsk_result, Handle};
use crate::tsk::path::TskPath;
use vstd::prelude::*;

verus! {

/// Returns the engine's version, as text.
///
/// `version_get_str` asks the engine for the bytes of its version string.
pub fn get_tsk_version<V>(version_get_str: V) -> (version: String) where
    V: FnOnce() -> Vec<u8>,

    requires
        call_requires(version_get_str, ()),
    ensures
        exists|bytes: Vec<u8>| #[trigger]
            call_ensures(version_get_str, (), bytes) && version@ == utf8_lossy(bytes@) && (
            vstd::utf8::valid_utf8(bytes@) ==> version@ == vstd::utf8::decode_utf8(bytes@)),
{
    let bytes = version_get_str();
    from_utf8_lossy(bytes.as_slice())
}

/// An opened single-file disk image. It owns the engine's image resource.
#[derive(Debug)]
pub struct TskImage {
    inner: Handle,
}

/// The offset within an image at which a filesystem is looked for.
pub const FS_OFFSET: u64 = 0;

impl TskImage {
    /// The address of the engine's image structure.
    pub closed spec fn spec_ptr(&self) -> usize {
        self.inner.spec_addr()
    }

    /// Whether `opened` is what `TskImage::open` makes of the address `ptr`
    /// that the engine handed back.
    pub open spec fn opened<E: FnOnce() -> Option<Vec<u8>>>(
        ptr: usize,
        error_get: E,
        opened: TskResult<TskImage>,
    ) -> bool {
        if ptr != 0 {
            opened matches Ok(image) && image.spec_ptr() == ptr
        } else {
            opened matches Err(error) && bridges(error_get, TskErrorKind::Open, error)
        }
    }

    /// Whether `opened` is what `open_fs` makes of the filesystem structure
    /// `info` that the engine handed back.
    pub open spec fn opened_fs<'a, E: FnOnce() -> Option<Vec<u8>>>(
        info: FsInfo,
        error_get: E,
        opened: TskResult<TskFs<'a>>,
    ) -> bool {
        if info.ptr != 0 {
            opened matches Ok(fs) && fs@ == info
        } else {
            opened matches Err(error) && bridges(error_get, TskErrorKind::Open, error)
        }
    }

    /// An image is handed out exactly where the engine's address is not
    /// null, and then wraps that address; every failure is an open error.
    pub proof fn lemma_opened<E: FnOnce() -> Option<Vec<u8>>>(
        ptr: usize,
        error_get: E,
        opened: TskResult<TskImage>,
    )
        requires
            Self::opened(ptr, error_get, opened),
        ensures
            opened is Ok <==> ptr != 0,
            opened matches Ok(image) ==> image.spec_ptr() != 0,
            opened matches Err(error) ==> error.spec_kind() == TskErrorKind::Open,
    {
    }

    /// A filesystem is handed out exactly where the engine's address is not
    /// null, and then wraps that address and reports what the engine's
    /// structure held; every failure is an open error.
    pub proof fn lemma_opened_fs<'a, E: FnOnce() -> Option<Vec<u8>>>(
        info: FsInfo,
        error_get: E,
        opened: TskResult<TskFs<'a>>,
    )
        requires
            Self::opened_fs(info, error_get, opened),
        ensures
            opened is Ok <==> info.ptr != 0,
            opened matches Ok(fs) ==> fs@.ptr != 0 && fs@ == info,
            opened matches Err(error) ==> error.spec_kind() == TskErrorKind::Open,
    {
    }

    /// Opens a single raw image file.
    ///
    /// `open_sing` asks the engine to open the image at the encoded path and
    /// hands back the address of the image structure, null on failure.
    pub fn open<C, E>(
        path: &TskPath,
        open_sing: C,
        error_get: E,
    ) -> (image: TskResult<TskImage>) where
        C: FnOnce(&TskPath) -> usize,
        E: FnOnce() -> Option<Vec<u8>>,

        requires
            call_requires(open_sing, (path,)),
            forall|ptr: usize| #[trigger]
                call_ensures(open_sing, (path,), ptr) && ptr == 0 ==> call_requires(error_get, ()),
        ensures
            exists|ptr: usize| #[trigger]
                call_ensures(open_sing, (path,), ptr) && Self::opened(ptr, error_get, image),
    {
        let tsk_img_result = open_sing(path);
        match get_tsk_result(tsk_img_result, TskErrorKind::Open, error_get) {
            Ok(inner) => Ok(TskImage { inner }),
            Err(error) => Err(error),
        }
    }

    /// Detects and opens the filesystem at the start of the image.
    ///
    /// `open_img` asks the engine to detect a filesystem in the image at the
    /// given address and byte offset, and hands back what the filesystem
    /// structure holds, with a null address on failure.
    pub fn open_fs<C, E>(&self, open_img: C, error_get: E) -> (fs: TskResult<TskFs<'_>>) where
        C: FnOnce(usize, u64) -> FsInfo,
        E: FnOnce() -> Option<Vec<u8>>,

        requires
            call_requires(open_img, (self.spec_ptr(), FS_OFFSET)),
            forall|info: FsInfo| #[trigger]
                call_ensures(open_img, (self.spec_ptr(), FS_OFFSET), info) && info.ptr == 0
                    ==> call_requires(error_get, ()),
        ensures
            exists|info: FsInfo| #[trigger]
                call_ensures(open_img, (self.spec_ptr(), FS_OFFSET), info) && Self::opened_fs(
                    info,
                    error_get,
                    fs,
                ),
    {
        let tsk_fs_result = open_img(self.inner.addr(), FS_OFFSET);
        match get_tsk_result(tsk_fs_result.ptr, TskErrorKind::Open, error_get) {
            Ok(inner) => Ok(TskFs::new(inner, tsk_fs_result)),
            Err(error) => Err(error),
        }
    }

    /// The address of the engine's image structure. It is never null.
    #[verifier::when_used_as_spec(spec_ptr)]
    pub fn ptr(&self) -> (ptr: usize)
        ensures
            ptr == self.spec_ptr(),
            ptr != 0,
    {
        self.inner.addr()
    }

    /// Gives the image up. Returns the address to hand to the engine's close
    /// call for images.
    pub fn release(self) -> (close: usize)
        ensures
            close == self.spec_ptr(),
            close != 0,
    {
        self.inner.addr()
    }
}

} // verus!
