//! Scenario tests of whole copy runs on real directory trees.

use std::path::Path;
use std::path::PathBuf;

use treecopy::copy;
use treecopy::copy_advanced;
use treecopy::CopyBuilder;
use treecopy::CopyError;

fn path_str(p: &Path) -> &str {
    p.to_str().unwrap()
}

fn write_file(p: &Path, content: &[u8]) {
    fs_err::write(p, content).unwrap();
}

fn read_file(p: &Path) -> Vec<u8> {
    fs_err::read(p).unwrap()
}

fn set_mtime(p: &Path, unix_seconds: i64) {
    filetime::set_file_mtime(p, filetime::FileTime::from_unix_time(unix_seconds, 0)).unwrap();
}

/// A scratch area holding a `source` tree and a `dest` root path.
fn scratch() -> (tempfile::TempDir, PathBuf, PathBuf) {
    let tmp = tempfile::tempdir().unwrap();
    let source = tmp.path().join("source");
    let dest = tmp.path().join("dest");
    fs_err::create_dir_all(&source).unwrap();
    (tmp, source, dest)
}

#[test]
fn round_trip_into_empty_destination() {
    let (_tmp, source, dest) = scratch();
    fs_err::create_dir_all(source.join("sub").join("deeper")).unwrap();
    write_file(&source.join("a.txt"), b"alpha");
    write_file(&source.join("sub").join("b.txt"), b"beta content");
    write_file(&source.join("sub").join("deeper").join("c.bin"), &[0u8, 1, 2, 255]);

    assert_eq!(copy(path_str(&source), path_str(&dest)), Ok(()));

    assert!(dest.join("sub").join("deeper").is_dir());
    assert_eq!(read_file(&dest.join("a.txt")), b"alpha".to_vec());
    assert_eq!(read_file(&dest.join("sub").join("b.txt")), b"beta content".to_vec());
    assert_eq!(
        read_file(&dest.join("sub").join("deeper").join("c.bin")),
        vec![0u8, 1, 2, 255]
    );
}

#[test]
fn second_run_without_overwrite_skips_existing_files() {
    let (_tmp, source, dest) = scratch();
    write_file(&source.join("f.txt"), b"first");
    assert_eq!(copy(path_str(&source), path_str(&dest)), Ok(()));
    assert_eq!(read_file(&dest.join("f.txt")), b"first".to_vec());

    // Change the source (same byte length) and run again with every
    // overwrite flag off: the existing destination file must be skipped,
    // and the run must still succeed.
    write_file(&source.join("f.txt"), b"later");
    assert_eq!(copy(path_str(&source), path_str(&dest)), Ok(()));
    assert_eq!(read_file(&dest.join("f.txt")), b"first".to_vec());
}

#[test]
fn exclude_filter_skips_matching_file() {
    let (_tmp, source, dest) = scratch();
    fs_err::create_dir_all(source.join("a")).unwrap();
    write_file(&source.join("a").join("keep.txt"), b"kept");
    write_file(&source.join("a").join("skip.txt"), b"skipped");

    let r = copy_advanced(
        path_str(&source),
        path_str(&dest),
        false,
        false,
        false,
        vec!["skip".to_string()],
        vec![],
    );
    assert_eq!(r, Ok(()));
    assert_eq!(read_file(&dest.join("a").join("keep.txt")), b"kept".to_vec());
    assert!(!dest.join("a").join("skip.txt").exists());
}

#[test]
fn include_filter_restricts_what_is_copied() {
    let (_tmp, source, dest) = scratch();
    write_file(&source.join("x.log"), b"log line");
    write_file(&source.join("y.txt"), b"text");

    let r = copy_advanced(
        path_str(&source),
        path_str(&dest),
        false,
        false,
        false,
        vec![],
        vec!["txt".to_string()],
    );
    assert_eq!(r, Ok(()));
    assert_eq!(read_file(&dest.join("y.txt")), b"text".to_vec());
    assert!(!dest.join("x.log").exists());
}

#[test]
fn excluded_directory_is_skipped_with_its_subtree() {
    let (_tmp, source, dest) = scratch();
    fs_err::create_dir_all(source.join("logs")).unwrap();
    write_file(&source.join("logs").join("important.txt"), b"inside");
    write_file(&source.join("top.txt"), b"outside");

    // The file inside would pass the include filter on its own, but the
    // exclusion of its directory is final.
    let r = copy_advanced(
        path_str(&source),
        path_str(&dest),
        false,
        false,
        false,
        vec!["logs".to_string()],
        vec!["txt".to_string()],
    );
    assert_eq!(r, Ok(()));
    assert_eq!(read_file(&dest.join("top.txt")), b"outside".to_vec());
    assert!(!dest.join("logs").join("important.txt").exists());
    assert!(!dest.join("logs").exists());
}

#[test]
fn overwrite_if_newer_replaces_older_destination() {
    let (_tmp, source, dest) = scratch();
    fs_err::create_dir_all(&dest).unwrap();
    write_file(&source.join("f.txt"), b"new content");
    write_file(&dest.join("f.txt"), b"old content");
    set_mtime(&source.join("f.txt"), 2_000_000);
    set_mtime(&dest.join("f.txt"), 1_000_000);

    let r = copy_advanced(
        path_str(&source),
        path_str(&dest),
        false,
        true,
        false,
        vec![],
        vec![],
    );
    assert_eq!(r, Ok(()));
    assert_eq!(read_file(&dest.join("f.txt")), b"new content".to_vec());
}

#[test]
fn overwrite_if_newer_leaves_newer_destination() {
    let (_tmp, source, dest) = scratch();
    fs_err::create_dir_all(&dest).unwrap();
    write_file(&source.join("f.txt"), b"source side");
    write_file(&dest.join("f.txt"), b"dest side");
    set_mtime(&source.join("f.txt"), 1_000_000);
    set_mtime(&dest.join("f.txt"), 2_000_000);

    let r = copy_advanced(
        path_str(&source),
        path_str(&dest),
        false,
        true,
        false,
        vec![],
        vec![],
    );
    assert_eq!(r, Ok(()));
    assert_eq!(read_file(&dest.join("f.txt")), b"dest side".to_vec());
}

#[test]
fn overwrite_if_size_differs_replaces_despite_newer_destination() {
    let (_tmp, source, dest) = scratch();
    fs_err::create_dir_all(&dest).unwrap();
    write_file(&source.join("g.txt"), b"short");
    write_file(&dest.join("g.txt"), b"much longer content");
    // The destination is even newer than the source; only the size counts.
    set_mtime(&source.join("g.txt"), 1_000_000);
    set_mtime(&dest.join("g.txt"), 2_000_000);

    let r = copy_advanced(
        path_str(&source),
        path_str(&dest),
        false,
        false,
        true,
        vec![],
        vec![],
    );
    assert_eq!(r, Ok(()));
    assert_eq!(read_file(&dest.join("g.txt")), b"short".to_vec());
}

#[test]
fn overwrite_if_size_differs_leaves_equal_size() {
    let (_tmp, source, dest) = scratch();
    fs_err::create_dir_all(&dest).unwrap();
    write_file(&source.join("g.txt"), b"AAAA");
    write_file(&dest.join("g.txt"), b"BBBB");

    let r = copy_advanced(
        path_str(&source),
        path_str(&dest),
        false,
        false,
        true,
        vec![],
        vec![],
    );
    assert_eq!(r, Ok(()));
    assert_eq!(read_file(&dest.join("g.txt")), b"BBBB".to_vec());
}

#[test]
fn missing_source_is_not_found_and_creates_nothing() {
    let tmp = tempfile::tempdir().unwrap();
    let dest = tmp.path().join("dest");
    let r = copy("/does/not/exist", path_str(&dest));
    assert_eq!(r, Err(CopyError::NotFound));
    assert!(!dest.exists());
}

#[test]
fn source_that_is_a_file_fails_as_io_failure() {
    let tmp = tempfile::tempdir().unwrap();
    let not_a_dir = tmp.path().join("plain.txt");
    write_file(&not_a_dir, b"just a file");
    let dest = tmp.path().join("dest");
    let r = copy(path_str(&not_a_dir), path_str(&dest));
    assert_eq!(r, Err(CopyError::IoFailure));
}

#[test]
fn builder_run_applies_its_configuration() {
    let (_tmp, source, dest) = scratch();
    write_file(&source.join("keep.txt"), b"kept");
    write_file(&source.join("drop.txt"), b"dropped");

    let b = CopyBuilder::new(path_str(&source), path_str(&dest))
        .overwrite_if_newer(false)
        .overwrite_if_size_differs(false)
        .with_exclude_filter("drop");
    assert_eq!(b.run(), Ok(()));
    assert_eq!(read_file(&dest.join("keep.txt")), b"kept".to_vec());
    assert!(!dest.join("drop.txt").exists());

    // Running the same job again re-executes the walk with the same options.
    assert_eq!(b.run(), Ok(()));
}
