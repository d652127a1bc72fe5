use pchain_compile::archive::{extract_files, files_from_tar_gz, ArchiveEntry};
use pchain_compile::docker::copy_files_from;
use pchain_compile::error::Error;
use std::io::Write;

fn tar_of(entries: &[(&str, Option<&[u8]>)]) -> Vec<u8> {
    let mut builder = tar::Builder::new(Vec::new());
    for (path, content) in entries {
        let mut header = tar::Header::new_gnu();
        match content {
            Some(bytes) => {
                header.set_entry_type(tar::EntryType::Regular);
                header.set_size(bytes.len() as u64);
                header.set_mode(0o644);
                builder.append_data(&mut header, path, *bytes).unwrap();
            }
            None => {
                header.set_entry_type(tar::EntryType::Directory);
                header.set_size(0);
                header.set_mode(0o755);
                builder.append_data(&mut header, path, std::io::empty()).unwrap();
            }
        }
    }
    builder.into_inner().unwrap()
}

fn gzip_of(bytes: &[u8]) -> Vec<u8> {
    let mut encoder = flate2::write::GzEncoder::new(Vec::new(), flate2::Compression::default());
    encoder.write_all(bytes).unwrap();
    encoder.finish().unwrap()
}

fn file(name: &str, content: &[u8]) -> (String, Vec<u8>) {
    (name.to_string(), content.to_vec())
}

#[test]
fn files_of_a_plain_archive() {
    let archive = tar_of(&[
        ("result/", None),
        ("result/hello_contract.wasm", Some(b"\0asm binary")),
        ("result/Cargo.lock", Some(b"version = 3")),
    ]);
    assert_eq!(
        files_from_tar_gz(archive),
        Ok(vec![file("hello_contract.wasm", b"\0asm binary"), file("Cargo.lock", b"version = 3")])
    );
}

#[test]
fn files_of_a_compressed_archive() {
    let archive = gzip_of(&tar_of(&[
        ("result/", None),
        ("result/hello_contract.wasm", Some(b"\0asm binary")),
    ]));
    assert_eq!(archive[0], 0x1f);
    assert_eq!(archive[1], 0x8b);
    assert_eq!(files_from_tar_gz(archive), Ok(vec![file("hello_contract.wasm", b"\0asm binary")]));
}

#[test]
fn packing_and_unpacking_reproduces_every_file_that_is_not_empty() {
    let big: Vec<u8> = (0..100_000u32).map(|i| (i % 251) as u8).collect();
    let packed: Vec<(&str, Option<&[u8]>)> = vec![
        ("contract/", None),
        ("contract/Cargo.toml", Some(b"[package]\nname = \"c\"\n")),
        ("contract/src/", None),
        ("contract/src/lib.rs", Some(b"pub fn f() {}\n")),
        ("contract/src/empty.rs", Some(b"")),
        ("contract/big.bin", Some(&big)),
    ];
    let expected = vec![
        file("Cargo.toml", b"[package]\nname = \"c\"\n"),
        file("lib.rs", b"pub fn f() {}\n"),
        file("big.bin", &big),
    ];
    let plain = tar_of(&packed);
    assert_eq!(files_from_tar_gz(plain.clone()), Ok(expected.clone()));
    assert_eq!(files_from_tar_gz(gzip_of(&plain)), Ok(expected));
}

#[test]
fn directories_and_empty_files_are_dropped() {
    let archive = tar_of(&[("result/", None), ("result/empty", Some(b"")), ("other/", None)]);
    assert_eq!(files_from_tar_gz(archive), Ok(vec![]));
}

#[test]
fn an_archive_without_entries_has_no_files() {
    assert_eq!(files_from_tar_gz(tar_of(&[])), Ok(vec![]));
    assert_eq!(files_from_tar_gz(Vec::new()), Ok(vec![]));
    assert_eq!(files_from_tar_gz(gzip_of(&tar_of(&[]))), Ok(vec![]));
}

#[test]
fn a_damaged_archive_yields_what_precedes_the_damage() {
    let mut archive = tar_of(&[("a.wasm", Some(b"first")), ("b.wasm", Some(b"second"))]);
    // The second header begins one block of header and one of data after the first.
    archive[1024 + 10] ^= 0xff;
    assert_eq!(files_from_tar_gz(archive), Ok(vec![file("a.wasm", b"first")]));
}

#[test]
fn bytes_that_are_no_archive_have_no_files() {
    let garbage = vec![7u8; 2000];
    assert_eq!(files_from_tar_gz(garbage), Ok(vec![]));
}

#[test]
fn a_damaged_gzip_stream_is_a_build_failure() {
    let mut archive = gzip_of(&tar_of(&[("a.wasm", Some(b"first"))]));
    archive.truncate(12);
    assert!(matches!(files_from_tar_gz(archive), Err(Error::BuildFailure(_))));
    assert!(matches!(files_from_tar_gz(vec![0x1f, 0x8b]), Err(Error::BuildFailure(_))));
}

#[test]
fn a_file_at_a_truncated_end_is_returned_as_far_as_it_goes() {
    let mut archive = tar_of(&[("a.wasm", Some(&[1u8; 2000]))]);
    archive.truncate(512 + 700);
    assert_eq!(files_from_tar_gz(archive), Ok(vec![file("a.wasm", &[1u8; 700])]));
}

fn entry(regular: bool, size: u64, path: &[u8], content: Option<&[u8]>) -> Option<ArchiveEntry> {
    Some(ArchiveEntry {
        regular,
        size,
        path: path.to_vec(),
        content: content.map(|c| c.to_vec()),
    })
}

#[test]
fn which_entries_count_as_files() {
    let slots = vec![
        entry(true, 3, b"result/a.wasm", Some(b"abc")),
        None,
        entry(false, 3, b"result/link", Some(b"abc")),
        entry(true, 0, b"result/declared_empty", Some(b"abc")),
        entry(true, 3, b"result/held_empty", Some(b"")),
        entry(true, 3, b"result/unreadable", None),
        entry(true, 3, b"result/..", Some(b"abc")),
        entry(true, 3, b"", Some(b"abc")),
        entry(true, 3, b"result/\xff.wasm", Some(b"abc")),
        entry(true, 1, b"b", Some(b"z")),
    ];
    assert_eq!(extract_files(slots), vec![file("a.wasm", b"abc"), file("b", b"z")]);
    assert_eq!(extract_files(vec![]), vec![]);
    assert_eq!(extract_files(vec![None, None]), vec![]);
}

#[test]
fn fetched_files_are_returned() {
    let archive = tar_of(&[("result/hello_contract.wasm", Some(b"wasm"))]);
    assert_eq!(
        copy_files_from(Ok(archive), "the log".to_string()),
        Ok(vec![file("hello_contract.wasm", b"wasm")])
    );
}

#[test]
fn an_archive_without_files_fails_the_build_with_its_log() {
    let archive = tar_of(&[("result/", None)]);
    assert_eq!(
        copy_files_from(Ok(archive), "the log".to_string()),
        Err(Error::BuildFailureWithLogs("the log".to_string()))
    );
    assert_eq!(
        copy_files_from(Ok(Vec::new()), String::new()),
        Err(Error::BuildFailureWithLogs(String::new()))
    );
}

#[test]
fn a_failed_download_is_a_build_failure_with_the_message() {
    assert_eq!(
        copy_files_from(Err("no such container".to_string()), "the log".to_string()),
        Err(Error::BuildFailure("no such container".to_string()))
    );
}
