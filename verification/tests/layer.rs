//! The pieces of the handle layer, each on its own.

use std::cell::Cell;

use rrg::tsk::dir::TskFsDirIterator;
use rrg::tsk::walk::walk_callback;
use rrg::tsk::{
    get_tsk_result, get_tsk_version, try_get_tsk_error, DirInfo, FileInfo, FsInfo, Handle,
    TskError, TskErrorKind, TskFsFile, TskFsMeta, TskFsName, TskImage, TskPath, WalkRet,
};

fn no_error() -> Option<Vec<u8>> {
    None
}

fn nothing() -> FileInfo {
    FileInfo { ptr: 0, name: None, meta: None }
}

fn file(ptr: usize, name: &[u8]) -> FileInfo {
    FileInfo { ptr, name: Some(TskFsName { name: name.to_vec() }), meta: None }
}

fn image() -> TskImage {
    TskImage::open(&TskPath::from_path(b"image"), |_| 0x10, no_error).unwrap()
}

fn fs_of(ptr: usize) -> impl Fn(usize, u64) -> FsInfo {
    move |_, _| FsInfo { ptr, root_inum: 2, ftype: 8 }
}

#[test]
fn path_of_bytes_ends_with_one_zero() {
    assert_eq!(TskPath::from_path(b"/a/b").as_bytes(), b"/a/b\0");
    assert_eq!(TskPath::from_path(b"").as_bytes(), b"\0");
    assert_eq!(TskPath::from_path(b"a\0b").as_bytes(), b"a\0b\0");
    assert_eq!(TskPath::from_path(&[0xff, 0xfe]).as_bytes(), &[0xff, 0xfe, 0x00]);
}

#[test]
fn path_of_code_units_is_low_byte_first_and_ends_with_a_zero_unit() {
    assert_eq!(
        TskPath::from_wide(&[0x0043, 0x003a, 0x0142]).as_bytes(),
        &[0x43, 0x00, 0x3a, 0x00, 0x42, 0x01, 0x00, 0x00]
    );
    assert_eq!(TskPath::from_wide(&[]).as_bytes(), &[0x00, 0x00]);
    assert_eq!(TskPath::from_wide(&[0xffff]).as_bytes(), &[0xff, 0xff, 0x00, 0x00]);
    assert_eq!(TskPath::from_wide(&[0xd83d, 0xde00]).as_bytes(), &[0x3d, 0xd8, 0x00, 0xde, 0, 0]);
}

#[test]
fn path_handed_to_the_engine_is_the_encoded_one() {
    let seen = Cell::new(Vec::new());
    let path = TskPath::from_path(b"/evidence/disk.raw");
    let opened = TskImage::open(
        &path,
        |encoded| {
            seen.set(encoded.as_bytes().to_vec());
            0x40
        },
        no_error,
    )
    .unwrap();
    assert_eq!(seen.take(), b"/evidence/disk.raw\0");
    assert_eq!(opened.ptr(), 0x40);
}

#[test]
fn empty_diagnostic_slot_reads_unknown() {
    let error = TskError::new(TskErrorKind::Open, None);
    assert_eq!(error.message(), "unknown");
    assert_eq!(error.to_string(), "unknown");
    assert_eq!(error.kind(), TskErrorKind::Open);
    let error = try_get_tsk_error(TskErrorKind::Walk, no_error);
    assert_eq!(error.message(), "unknown");
    assert_eq!(error.kind(), TskErrorKind::Walk);
}

#[test]
fn diagnostic_becomes_the_message() {
    let error = TskError::new(TskErrorKind::NotFound, Some(b"Cannot read sector 7".to_vec()));
    assert_eq!(error.message(), "Cannot read sector 7");
    assert_eq!(error.kind(), TskErrorKind::NotFound);
    let error = TskError::new(TskErrorKind::InternalConsistency, Some(Vec::new()));
    assert_eq!(error.message(), "");
    assert_eq!(error.kind(), TskErrorKind::InternalConsistency);
    let error = try_get_tsk_error(TskErrorKind::Open, || Some("błąd".as_bytes().to_vec()));
    assert_eq!(error.message(), "błąd");
}

#[test]
fn diagnostic_that_is_not_text_is_read_lossily() {
    let error = TskError::new(TskErrorKind::Open, Some(vec![b'a', 0xff, b'b']));
    assert_eq!(error.message(), "a\u{fffd}b");
    let error = TskError::new(TskErrorKind::Open, Some(vec![0xe2, 0x82]));
    assert_eq!(error.message(), "\u{fffd}");
}

#[test]
fn null_address_becomes_the_bridged_error() {
    let error = get_tsk_result(0, TskErrorKind::Open, || Some(b"no such image".to_vec()))
        .unwrap_err();
    assert_eq!(error.kind(), TskErrorKind::Open);
    assert_eq!(error.message(), "no such image");
    let error = get_tsk_result(0, TskErrorKind::NotFound, no_error).unwrap_err();
    assert_eq!(error.kind(), TskErrorKind::NotFound);
    assert_eq!(error.message(), "unknown");
}

#[test]
fn diagnostic_slot_is_read_only_after_a_failure() {
    let reads = Cell::new(0);
    let handle = get_tsk_result(0x7f00, TskErrorKind::Open, || {
        reads.set(reads.get() + 1);
        None
    })
    .unwrap();
    assert_eq!(handle.addr(), 0x7f00);
    assert_eq!(reads.get(), 0);
    let failed = get_tsk_result(0, TskErrorKind::Open, || {
        reads.set(reads.get() + 1);
        None
    });
    assert!(failed.is_err());
    assert_eq!(reads.get(), 1);
}

#[test]
fn handle_is_never_null() {
    assert!(Handle::new(0).is_none());
    assert_eq!(Handle::new(1).unwrap().addr(), 1);
    assert_eq!(Handle::new(usize::MAX).unwrap().addr(), usize::MAX);
}

#[test]
fn version_is_read_lossily() {
    assert_eq!(get_tsk_version(|| b"4.12.1".to_vec()), "4.12.1");
    assert_eq!(get_tsk_version(|| Vec::new()), "");
    assert_eq!(get_tsk_version(|| vec![b'4', 0x80]), "4\u{fffd}");
}

#[test]
fn name_is_read_lossily() {
    assert_eq!(TskFsName { name: b"report.txt".to_vec() }.get_name(), "report.txt");
    assert_eq!(TskFsName { name: Vec::new() }.get_name(), "");
    assert_eq!(TskFsName { name: vec![0xc3, 0x28] }.get_name(), "\u{fffd}(");
    assert_eq!(TskFsName { name: "żółw".as_bytes().to_vec() }.get_name(), "żółw");
}

#[test]
fn metadata_is_handed_out_as_it_was_read() {
    let meta = TskFsMeta {
        addr: 64,
        size: 4096,
        mode: 0o644,
        atime: 1710542035,
        atime_nano: 951596300,
        crtime: -1,
        crtime_nano: 2,
        ctime: 3,
        ctime_nano: 4,
        mtime: i64::MAX,
        mtime_nano: u32::MAX,
    };
    assert_eq!(meta.addr(), 64);
    assert_eq!(meta.size(), 4096);
    assert_eq!(meta.mode(), 0o644);
    assert_eq!(meta.atime(), 1710542035);
    assert_eq!(meta.atime_nano(), 951596300);
    assert_eq!(meta.crtime(), -1);
    assert_eq!(meta.crtime_nano(), 2);
    assert_eq!(meta.ctime(), 3);
    assert_eq!(meta.ctime_nano(), 4);
    assert_eq!(meta.mtime(), i64::MAX);
    assert_eq!(meta.mtime_nano(), u32::MAX);
}

#[test]
fn file_without_name_or_metadata_says_so() {
    let image = image();
    let fs = image.open_fs(fs_of(0x20), no_error).unwrap();
    let bare = fs
        .open_file(
            &TskPath::from_path(b"/orphan"),
            |_, _| FileInfo { ptr: 0x30, name: None, meta: None },
            no_error,
        )
        .unwrap();
    assert!(bare.get_name().is_none());
    assert!(bare.get_meta().is_none());
    assert_eq!(bare.release(), Some(0x30));
}

#[test]
fn filesystem_hands_its_own_address_to_the_engine() {
    let image = image();
    let fs = image
        .open_fs(
            |image, offset| {
                assert_eq!(image, 0x10);
                assert_eq!(offset, 0);
                FsInfo { ptr: 0x20, root_inum: 2, ftype: 8 }
            },
            no_error,
        )
        .unwrap();
    assert_eq!(fs.ptr(), 0x20);
    assert_eq!(fs.root_inum(), 2);
    assert_eq!(fs.ftype(), 8);
    let name = fs
        .get_fs_type(
            |ftype| {
                assert_eq!(ftype, 8);
                Some(b"ext4".to_vec())
            },
            no_error,
        )
        .unwrap();
    assert_eq!(name, "ext4");
    let dir = fs
        .open_dir_meta(
            11,
            |fs, meta| {
                assert_eq!(fs, 0x20);
                assert_eq!(meta, 11);
                DirInfo { ptr: 0x50, addr: 11, names_used: 0, fs_file: nothing() }
            },
            no_error,
        )
        .unwrap();
    assert_eq!(dir.addr(), 11);
    assert_eq!(dir.len(), 0);
    assert!(!dir.has_file());
    assert_eq!(dir.release(), 0x50);
    assert_eq!(fs.release(), 0x20);
    assert_eq!(image.release(), 0x10);
}

#[test]
fn pass_ends_at_the_first_empty_slot_whatever_the_count() {
    let image = image();
    let fs = image.open_fs(fs_of(0x20), no_error).unwrap();
    let open = |_: usize, _: u64| DirInfo {
        ptr: 0x50,
        addr: 11,
        names_used: 5,
        fs_file: nothing(),
    };
    let mut dir = fs.open_dir_meta(11, open, no_error).unwrap();
    let lookups = Cell::new(0);
    let files = dir.iter_entries(|dir, idx| {
        assert_eq!(dir, 0x50);
        lookups.set(lookups.get() + 1);
        if idx < 3 {
            file(0x100 + idx, b"entry")
        } else {
            nothing()
        }
    });
    assert_eq!(files.len(), 3);
    assert_eq!(lookups.get(), 4);
    assert_eq!(dir.len(), 5);
    let longer = dir.iter_entries(|_, idx| if idx < 7 { file(0x100 + idx, b"entry") } else { nothing() });
    assert_eq!(longer.len(), 7);
    let none = dir.iter_entries(|_, _| nothing());
    assert!(none.is_empty());
}

#[test]
fn pass_moves_on_only_past_a_file() {
    let image = image();
    let fs = image.open_fs(fs_of(0x20), no_error).unwrap();
    let open = |_: usize, _: u64| DirInfo {
        ptr: 0x50,
        addr: 11,
        names_used: 2,
        fs_file: nothing(),
    };
    let dir = fs.open_dir_meta(11, open, no_error).unwrap();
    let asked = Cell::new(Vec::new());
    let get = |_: usize, idx: usize| {
        let mut so_far = asked.take();
        so_far.push(idx);
        asked.set(so_far);
        if idx < 2 {
            file(0x100 + idx, if idx == 0 { b"a" } else { b"b" })
        } else {
            nothing()
        }
    };
    let mut entries = TskFsDirIterator::new(&dir);
    assert_eq!(entries.size_hint(), (2, Some(2)));
    let first = entries.next(&get).unwrap();
    assert_eq!(first.get_name().unwrap().get_name(), "a");
    assert!(first.owned());
    let second = entries.next(&get).unwrap();
    assert_eq!(second.ptr(), 0x101);
    assert!(entries.next(&get).is_none());
    assert!(entries.next(&get).is_none());
    assert_eq!(asked.take(), [0, 1, 2, 2]);
    assert_eq!(entries.size_hint(), (2, Some(2)));
}

#[test]
fn walk_goes_on_after_every_entry() {
    let mut seen: Vec<(usize, bool, Vec<u8>)> = Vec::new();
    let mut visitor = |file: TskFsFile, path: &[u8]| {
        seen.push((file.ptr(), file.owned(), path.to_vec()));
    };
    assert_eq!(walk_callback(&mut visitor, file(0x61, b"x"), b""), WalkRet::Cont);
    assert_eq!(walk_callback(&mut visitor, file(0x62, b"y"), b"dir/"), WalkRet::Cont);
    assert_eq!(walk_callback(&mut visitor, file(0x63, b"z"), &[b'd', 0xff, b'/']), WalkRet::Cont);
    assert_eq!(
        seen,
        [
            (0x61, true, b"".to_vec()),
            (0x62, true, b"dir/".to_vec()),
            (0x63, true, vec![b'd', 0xff, b'/']),
        ]
    );
}

#[test]
fn walk_succeeds_on_status_zero_only() {
    let image = image();
    let mut fs = image.open_fs(fs_of(0x20), no_error).unwrap();
    let reads = Cell::new(0);
    let error_get = || {
        reads.set(reads.get() + 1);
        Some(b"walk failed".to_vec())
    };
    assert!(fs.walk_dir(2, |_, _, _| 0, error_get).is_ok());
    assert_eq!(reads.get(), 0);
    let error = fs.walk_dir(2, |_, _, _| 1, error_get).unwrap_err();
    assert_eq!(error.kind(), TskErrorKind::Walk);
    assert_eq!(error.message(), "walk failed");
    assert_eq!(reads.get(), 1);
    assert!(fs.walk_dir(2, |_, _, _| 255, error_get).is_err());
    assert_eq!(fs.ptr(), 0x20);
}
