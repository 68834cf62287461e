use jdtls_bootstrap::archive::{
    is_safe, plan_extraction, unpack_plan, ArchiveEntry, FsAction,
};
use jdtls_bootstrap::error::BootstrapError;
use std::io::Write;

fn gzip(bytes: &[u8]) -> Vec<u8> {
    let mut encoder = flate2::write::GzEncoder::new(Vec::new(), flate2::Compression::default());
    encoder.write_all(bytes).unwrap();
    encoder.finish().unwrap()
}

fn header(kind: tar::EntryType, name: &[u8], size: u64) -> tar::Header {
    let mut header = tar::Header::new_ustar();
    header.as_old_mut().name[..name.len()].copy_from_slice(name);
    header.set_entry_type(kind);
    header.set_size(size);
    header.set_mode(0o644);
    header.set_cksum();
    header
}

fn tarball(members: &[(tar::EntryType, &[u8], &[u8])]) -> Vec<u8> {
    let mut builder = tar::Builder::new(Vec::new());
    for (kind, name, data) in members {
        builder.append(&header(*kind, name, data.len() as u64), *data).unwrap();
    }
    builder.into_inner().unwrap()
}

fn file(path: &str, data: &[u8]) -> ArchiveEntry {
    ArchiveEntry { path: path.as_bytes().to_vec(), is_file: true, is_dir: false, data: data.to_vec() }
}

fn dir(path: &str) -> ArchiveEntry {
    ArchiveEntry { path: path.as_bytes().to_vec(), is_file: false, is_dir: true, data: vec![] }
}

fn other(path: &str) -> ArchiveEntry {
    ArchiveEntry { path: path.as_bytes().to_vec(), is_file: false, is_dir: false, data: vec![] }
}

fn write(path: &str, data: &[u8]) -> FsAction {
    FsAction::WriteFile { path: path.as_bytes().to_vec(), data: data.to_vec() }
}

fn create(path: &str) -> FsAction {
    FsAction::CreateDirectories { path: path.as_bytes().to_vec() }
}

#[test]
fn archive_is_unpacked_in_order() {
    let archive = gzip(&tarball(&[
        (tar::EntryType::Directory, b"bin/", b""),
        (tar::EntryType::Regular, b"bin/jdtls", b"#!/bin/sh\n"),
        (tar::EntryType::Directory, b"plugins/org/", b""),
        (tar::EntryType::Regular, b"config.ini", b""),
    ]));
    assert_eq!(
        unpack_plan(&archive).unwrap(),
        vec![
            create("bin/"),
            write("bin/jdtls", b"#!/bin/sh\n"),
            create("plugins/org/"),
            write("config.ini", b""),
        ]
    );
}

#[test]
fn symlink_is_never_materialized() {
    let archive = gzip(&tarball(&[
        (tar::EntryType::Regular, b"good", b"content"),
        (tar::EntryType::Symlink, b"evil", b""),
        (tar::EntryType::Directory, b"dir", b""),
    ]));
    let plan = unpack_plan(&archive).unwrap();
    assert_eq!(plan, vec![write("good", b"content"), create("dir")]);
    for action in &plan {
        let path = match action {
            FsAction::CreateDirectories { path } => path,
            FsAction::WriteFile { path, .. } => path,
        };
        assert_ne!(path.as_slice(), b"evil");
    }
}

#[test]
fn links_devices_and_extensions_are_passed_over() {
    let archive = gzip(&tarball(&[
        (tar::EntryType::Link, b"hard", b""),
        (tar::EntryType::Char, b"char", b""),
        (tar::EntryType::Block, b"block", b""),
        (tar::EntryType::Fifo, b"fifo", b""),
        (tar::EntryType::Continuous, b"continuous", b"abc"),
        (tar::EntryType::XGlobalHeader, b"pax_global_header", b"13 comment=x\n"),
        (tar::EntryType::GNULongName, b"././@LongLink", b"a/very/long/name\0"),
        (tar::EntryType::Regular, b"kept", b"k"),
    ]));
    assert_eq!(unpack_plan(&archive).unwrap(), vec![write("kept", b"k")]);
}

#[test]
fn unsafe_path_of_a_skipped_entry_does_no_harm() {
    let archive = gzip(&tarball(&[
        (tar::EntryType::Symlink, b"../evil", b""),
        (tar::EntryType::Regular, b"kept", b"k"),
    ]));
    assert_eq!(unpack_plan(&archive).unwrap(), vec![write("kept", b"k")]);
}

#[test]
fn parent_traversal_is_refused() {
    let archive = gzip(&tarball(&[
        (tar::EntryType::Regular, b"kept", b"k"),
        (tar::EntryType::Regular, b"../evil", b"x"),
    ]));
    assert_eq!(unpack_plan(&archive), Err(BootstrapError::ExtractError));
}

#[test]
fn absolute_path_is_refused() {
    let archive = gzip(&tarball(&[(tar::EntryType::Directory, b"/etc/cron.d", b"")]));
    assert_eq!(unpack_plan(&archive), Err(BootstrapError::ExtractError));
}

#[test]
fn bytes_that_are_no_gzip_stream_are_refused() {
    assert_eq!(unpack_plan(b"this is not an archive"), Err(BootstrapError::ExtractError));
}

#[test]
fn truncated_archive_is_refused() {
    let archive = gzip(&tarball(&[(tar::EntryType::Regular, b"file", &[7u8; 2000])]));
    assert_eq!(unpack_plan(&archive[..archive.len() / 2]), Err(BootstrapError::ExtractError));
}

#[test]
fn gzip_of_broken_tar_is_refused() {
    let mut tar_bytes = tarball(&[(tar::EntryType::Regular, b"file", b"abc")]);
    tar_bytes[0] ^= 0x55;
    assert_eq!(unpack_plan(&gzip(&tar_bytes)), Err(BootstrapError::ExtractError));
}

#[test]
fn empty_archive_has_an_empty_plan() {
    let archive = gzip(&tarball(&[]));
    assert_eq!(unpack_plan(&archive).unwrap(), vec![]);
}

#[test]
fn gzip_members_are_read_one_after_the_other() {
    let tar_bytes = tarball(&[
        (tar::EntryType::Regular, b"first", b"1"),
        (tar::EntryType::Regular, b"second", b"2"),
    ]);
    let mut archive = gzip(&tar_bytes[..512]);
    archive.extend(gzip(&tar_bytes[512..]));
    assert_eq!(unpack_plan(&archive).unwrap(), vec![write("first", b"1"), write("second", b"2")]);
}

#[test]
fn plan_keeps_files_and_directories_only() {
    let entries = vec![
        dir("a"),
        other("evil"),
        file("a/b", b"1"),
        other("a/c"),
        file("d", b""),
    ];
    assert_eq!(
        plan_extraction(entries).unwrap(),
        vec![create("a"), write("a/b", b"1"), write("d", b"")]
    );
}

#[test]
fn plan_of_nothing_is_empty() {
    assert_eq!(plan_extraction(vec![]).unwrap(), vec![]);
}

#[test]
fn plan_takes_an_entry_that_is_both_for_a_directory() {
    let both = ArchiveEntry { path: b"x".to_vec(), is_file: true, is_dir: true, data: vec![1] };
    assert_eq!(plan_extraction(vec![both]).unwrap(), vec![create("x")]);
}

#[test]
fn plan_refuses_the_whole_listing_for_one_unsafe_path() {
    let entries = vec![file("ok", b"1"), dir("a/../../b"), file("also-ok", b"2")];
    assert_eq!(plan_extraction(entries), Err(BootstrapError::ExtractError));
}

#[test]
fn plan_ignores_unsafe_paths_of_skipped_entries() {
    let entries = vec![other("/abs"), other(".."), file("ok", b"1")];
    assert_eq!(plan_extraction(entries).unwrap(), vec![write("ok", b"1")]);
}

#[test]
fn safe_paths() {
    for path in [
        "", ".", "./", "a", "a/b", "./a/b/", "a//b", "..a", "a..", "a/..b/c", "a/b../c", "...",
        "a/.../b", ". ./a", "a/. .", "bin/jdtls",
    ] {
        assert!(is_safe(&path.as_bytes().to_vec()), "{:?} is safe", path);
    }
}

#[test]
fn unsafe_paths() {
    for path in
        ["/", "/a", "//a", "..", "../", "../a", "a/..", "a/../", "a/../b", "./..", "a/b/c/../../.."]
    {
        assert!(!is_safe(&path.as_bytes().to_vec()), "{:?} is unsafe", path);
    }
}
