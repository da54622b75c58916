//! Safe handles over the engine's images, filesystems, directories and files.
//!
//! A handle is the non-null address of an engine resource together with the
//! plain values this layer reads from it. Handles form a hierarchy: a
//! filesystem borrows its image, a directory or file borrows its filesystem,
//! a name or metadata view borrows its file. The borrow is carried in the
//! types, so a parent cannot be released while a child is alive, and
//! releasing consumes the handle, so nothing is released twice.

pub mod dir;
pub mod error;
pub mod file;
pub mod fs;
pub mod handle;
pub mod image;
pub mod path;
pub mod walk;

pub use dir::{DirInfo, TskFsDir, TskFsDirIterator};
pub use error::{try_get_tsk_error, TskError, TskErrorKind, TskResult};
pub use file::{FileInfo, TskFsFile, TskFsMeta, TskFsName};
pub use fs::{FsInfo, TskFs};
pub use handle::{get_tsk_result, Handle};
pub use image::{get_tsk_version, TskImage};
pub use path::TskPath;
pub use walk::{WalkFlags, WalkRet};
