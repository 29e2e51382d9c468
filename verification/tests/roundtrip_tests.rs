//! Packing and unpacking through the real codecs: zip and gzip round
//! trips, tar read-back, naming and error scenarios.

use std::io::Read;

use fecr::entry::{ArchiveEntry, EntryKind};
use fecr::error::FcError;
use fecr::gzip_utils::{gunzip_file, gzip_file};
use fecr::tar_utils::{tar_folder, untar_file};
use fecr::zip_utils::{unzip_folder, zip_folder};

fn file_entry(path: &str, data: &[u8]) -> ArchiveEntry {
    ArchiveEntry {
        rel_path: path.to_string(),
        kind: EntryKind::File,
        mode: None,
        data: data.to_vec(),
    }
}

fn dir_entry(path: &str) -> ArchiveEntry {
    ArchiveEntry {
        rel_path: path.to_string(),
        kind: EntryKind::Directory,
        mode: None,
        data: Vec::new(),
    }
}

fn proj_entries() -> Vec<ArchiveEntry> {
    vec![file_entry("a.txt", b"hello"), dir_entry("sub")]
}

/// The observable content of an entry list: (path, is-directory, data),
/// sorted by path.
fn content_set(entries: &[ArchiveEntry]) -> Vec<(String, bool, Vec<u8>)> {
    let mut v: Vec<(String, bool, Vec<u8>)> = entries
        .iter()
        .map(|e| {
            (
                e.rel_path.clone(),
                e.kind == EntryKind::Directory,
                e.data.clone(),
            )
        })
        .collect();
    v.sort();
    v
}

#[test]
fn zip_round_trip_of_proj_folder() {
    let none: Vec<String> = Vec::new();
    let packed = zip_folder("/tmp/proj", true, &proj_entries(), None, None, None, None, &none)
        .unwrap();
    assert_eq!(packed.target.final_path, "/tmp/proj.zip");
    assert_eq!(packed.target.conflict_suffix, None);

    let unpacked = unzip_folder(
        "/tmp/proj.zip",
        true,
        &packed.bytes,
        None,
        None,
        &none,
    )
    .unwrap();
    assert_eq!(unpacked.target.final_path, "/tmp/proj");
    assert_eq!(
        content_set(&unpacked.entries),
        vec![
            ("a.txt".to_string(), false, b"hello".to_vec()),
            ("sub".to_string(), true, Vec::new()),
        ]
    );
}

#[test]
fn zip_round_trip_is_lossless_for_every_method_and_level() {
    let none: Vec<String> = Vec::new();
    let entries = vec![
        file_entry("a.txt", b"hello hello hello hello"),
        file_entry("sub/inner.bin", &[0u8, 1, 2, 3, 255, 254, 0, 0, 0, 7]),
        dir_entry("sub"),
        file_entry("empty.txt", b""),
    ];
    let cases: Vec<(Option<&str>, Option<i64>)> = vec![
        (None, None),
        (Some("deflate"), Some(1)),
        (Some("deflate"), Some(9)),
        (Some("default"), None),
        (Some("bzip2"), None),
        (Some("bzip"), Some(9)),
        (Some("zstd"), None),
        (Some("z"), Some(0)),
        (Some("zstd"), Some(-7)),
        (Some("zstd"), Some(19)),
    ];
    let reference = content_set(&entries);
    for (token, level) in cases {
        let packed =
            zip_folder("/tmp/proj", true, &entries, None, token, level, None, &none).unwrap();
        let unpacked =
            unzip_folder("/tmp/proj.zip", true, &packed.bytes, None, None, &none).unwrap();
        assert_eq!(content_set(&unpacked.entries), reference);
    }
}

#[test]
fn zip_conflict_resolution_on_explicit_name() {
    let existing = vec!["/tmp/out.zip".to_string()];
    let packed = zip_folder(
        "/tmp/proj",
        true,
        &proj_entries(),
        Some("out"),
        None,
        None,
        None,
        &existing,
    )
    .unwrap();
    assert_eq!(packed.target.final_path, "/tmp/out-1.zip");
    assert_eq!(packed.target.conflict_suffix, Some(1));

    let existing2 = vec!["/tmp/out.zip".to_string(), "/tmp/out-1.zip".to_string()];
    let packed2 = zip_folder(
        "/tmp/proj",
        true,
        &proj_entries(),
        Some("out"),
        None,
        None,
        None,
        &existing2,
    )
    .unwrap();
    assert_eq!(packed2.target.final_path, "/tmp/out-2.zip");
    assert_eq!(packed2.target.conflict_suffix, Some(2));
}

#[test]
fn zip_output_directory_is_respected() {
    let none: Vec<String> = Vec::new();
    let packed = zip_folder(
        "/tmp/proj",
        true,
        &proj_entries(),
        None,
        None,
        None,
        Some("/var/backups"),
        &none,
    )
    .unwrap();
    assert_eq!(packed.target.final_path, "/var/backups/proj.zip");
}

#[test]
fn zip_unsupported_method_fails_before_encoding() {
    let none: Vec<String> = Vec::new();
    let r = zip_folder(
        "/tmp/dir",
        true,
        &proj_entries(),
        None,
        Some("rot13"),
        None,
        None,
        &none,
    );
    assert_eq!(r.err(), Some(FcError::UnsupportedCompressionMethod));
}

#[test]
fn zip_level_out_of_range_fails() {
    let none: Vec<String> = Vec::new();
    let r = zip_folder(
        "/tmp/dir",
        true,
        &proj_entries(),
        None,
        Some("deflate"),
        Some(-1),
        None,
        &none,
    );
    assert_eq!(r.err(), Some(FcError::InvalidCompressionLevel));
}

#[test]
fn zip_rejects_a_non_directory_source() {
    let none: Vec<String> = Vec::new();
    let r = zip_folder("/tmp/file", false, &proj_entries(), None, None, None, None, &none);
    assert_eq!(r.err(), Some(FcError::NotADirectory));
}

#[test]
fn zip_rejects_a_nameless_source() {
    let none: Vec<String> = Vec::new();
    let r = zip_folder("/", true, &proj_entries(), None, None, None, None, &none);
    assert_eq!(r.err(), Some(FcError::InvalidPath));
}

#[test]
fn zip_of_empty_folder_round_trips() {
    let none: Vec<String> = Vec::new();
    let empty: Vec<ArchiveEntry> = Vec::new();
    let packed = zip_folder("/tmp/proj", true, &empty, None, None, None, None, &none).unwrap();
    let unpacked = unzip_folder("/tmp/proj.zip", true, &packed.bytes, None, None, &none).unwrap();
    assert_eq!(unpacked.entries.len(), 0);
}

#[test]
fn zip_preserves_permission_bits() {
    let none: Vec<String> = Vec::new();
    let entries = vec![ArchiveEntry {
        rel_path: "run.sh".to_string(),
        kind: EntryKind::File,
        mode: Some(0o700),
        data: b"#!/bin/sh\n".to_vec(),
    }];
    let packed = zip_folder("/tmp/proj", true, &entries, None, None, None, None, &none).unwrap();
    let unpacked = unzip_folder("/tmp/proj.zip", true, &packed.bytes, None, None, &none).unwrap();
    let mode = unpacked.entries[0].mode.expect("mode recorded");
    assert_eq!(mode & 0o777, 0o700);
}

#[test]
fn unzip_rejects_corrupt_bytes() {
    let none: Vec<String> = Vec::new();
    let bytes = b"this is not a zip container".to_vec();
    let r = unzip_folder("/tmp/x.zip", true, &bytes, None, None, &none);
    assert_eq!(r.err(), Some(FcError::ArchiveReadError));
}

#[test]
fn unzip_rejects_a_non_file_source() {
    let none: Vec<String> = Vec::new();
    let r = unzip_folder("/tmp/dir", false, &Vec::new(), None, None, &none);
    assert_eq!(r.err(), Some(FcError::NotAFile));
}

#[test]
fn unzip_default_name_is_the_stem_with_conflicts_resolved() {
    let none: Vec<String> = Vec::new();
    let packed = zip_folder("/tmp/proj", true, &proj_entries(), None, None, None, None, &none)
        .unwrap();
    let existing = vec!["/tmp/proj".to_string(), "/tmp/proj-1".to_string()];
    let unpacked =
        unzip_folder("/tmp/proj.zip", true, &packed.bytes, None, None, &existing).unwrap();
    assert_eq!(unpacked.target.final_path, "/tmp/proj-2");
    assert_eq!(unpacked.target.conflict_suffix, Some(2));
}

#[test]
fn tar_pack_reads_back_with_the_tar_crate() {
    let none: Vec<String> = Vec::new();
    let entries = vec![
        file_entry("a.txt", b"hello"),
        dir_entry("sub"),
        file_entry("sub/inner.txt", b"inner"),
    ];
    let packed = tar_folder("/tmp/proj", true, &entries, None, None, &none).unwrap();
    assert_eq!(packed.target.final_path, "/tmp/proj.tar");

    let mut archive = tar::Archive::new(packed.bytes.as_slice());
    let mut seen: Vec<(String, bool, Vec<u8>)> = Vec::new();
    for member in archive.entries().unwrap() {
        let mut member = member.unwrap();
        let path = member.path().unwrap().to_string_lossy().into_owned();
        let is_dir = member.header().entry_type().is_dir();
        let mut data = Vec::new();
        member.read_to_end(&mut data).unwrap();
        seen.push((path, is_dir, data));
    }
    seen.sort();
    assert_eq!(
        seen,
        vec![
            ("a.txt".to_string(), false, b"hello".to_vec()),
            ("sub".to_string(), true, Vec::new()),
            ("sub/inner.txt".to_string(), false, b"inner".to_vec()),
        ]
    );
}

#[test]
fn tar_conflict_resolution_and_errors() {
    let existing = vec!["/tmp/proj.tar".to_string()];
    let packed =
        tar_folder("/tmp/proj", true, &proj_entries(), None, None, &existing).unwrap();
    assert_eq!(packed.target.final_path, "/tmp/proj-1.tar");

    let none: Vec<String> = Vec::new();
    assert_eq!(
        tar_folder("/tmp/x", false, &proj_entries(), None, None, &none).err(),
        Some(FcError::NotADirectory)
    );
    assert_eq!(
        tar_folder("/", true, &proj_entries(), None, None, &none).err(),
        Some(FcError::InvalidPath)
    );
}

#[test]
fn untar_resolves_the_extraction_directory() {
    let none: Vec<String> = Vec::new();
    let t = untar_file("/data/backup.tar", true, None, None, &none).unwrap();
    assert_eq!(t.final_path, "/data/backup_extracted");
    assert_eq!(t.conflict_suffix, None);

    let existing = vec!["/data/backup_extracted".to_string()];
    let t2 = untar_file("/data/backup.tar", true, None, None, &existing).unwrap();
    assert_eq!(t2.final_path, "/data/backup_extracted-1");

    let named = untar_file("/data/backup.tar", true, Some("restored"), None, &none).unwrap();
    assert_eq!(named.final_path, "/data/restored");

    assert_eq!(
        untar_file("/data/backup.tar", false, None, None, &none).err(),
        Some(FcError::NotAFile)
    );
    assert_eq!(
        untar_file("/", true, None, None, &none).err(),
        Some(FcError::InvalidPath)
    );
}

#[test]
fn gzip_round_trip_of_notes() {
    let none: Vec<String> = Vec::new();
    let data = b"abc".to_vec();
    let packed = gzip_file("notes.txt", true, &data, None, None, None, &none).unwrap();
    assert_eq!(packed.target.final_path, "notes.txt.gz");

    let unpacked = gunzip_file("notes.txt.gz", true, &packed.bytes, None, None, &none).unwrap();
    assert_eq!(unpacked.target.final_path, "notes.txt");
    assert_eq!(unpacked.data, b"abc".to_vec());
}

#[test]
fn gzip_output_is_a_real_container() {
    let none: Vec<String> = Vec::new();
    let data = b"abc".to_vec();
    let packed = gzip_file("notes.txt", true, &data, None, None, None, &none).unwrap();
    // A gzip container, not the input handed back: magic header bytes and
    // a deflate-wrapped payload.
    assert_ne!(packed.bytes, data);
    assert!(packed.bytes.len() >= 10);
    assert_eq!(packed.bytes[0], 0x1f);
    assert_eq!(packed.bytes[1], 0x8b);
}

#[test]
fn gzip_every_level_round_trips() {
    let none: Vec<String> = Vec::new();
    let data: Vec<u8> = (0u8..=255).cycle().take(4096).collect();
    for level in 0u32..=9 {
        let packed =
            gzip_file("blob.bin", true, &data, None, Some(level), None, &none).unwrap();
        let unpacked =
            gunzip_file("blob.bin.gz", true, &packed.bytes, None, None, &none).unwrap();
        assert_eq!(unpacked.data, data);
    }
}

#[test]
fn gzip_naming_and_conflicts() {
    let existing = vec!["notes.txt.gz".to_string()];
    let data = b"abc".to_vec();
    let packed = gzip_file("notes.txt", true, &data, None, None, None, &existing).unwrap();
    assert_eq!(packed.target.final_path, "notes.txt-1.gz");

    let named = gzip_file("notes.txt", true, &data, Some("kept"), None, None, &existing).unwrap();
    assert_eq!(named.target.final_path, "kept.gz");

    let outdir = gzip_file(
        "/home/u/notes.txt",
        true,
        &data,
        None,
        None,
        Some("/tmp"),
        &existing,
    )
    .unwrap();
    assert_eq!(outdir.target.final_path, "/tmp/notes.txt.gz");
}

#[test]
fn gzip_errors() {
    let none: Vec<String> = Vec::new();
    let data = b"abc".to_vec();
    assert_eq!(
        gzip_file("notes.txt", false, &data, None, None, None, &none).err(),
        Some(FcError::NotAFile)
    );
    assert_eq!(
        gzip_file("notes.txt", true, &data, None, Some(10), None, &none).err(),
        Some(FcError::InvalidCompressionLevel)
    );
    assert_eq!(
        gzip_file("/", true, &data, None, None, None, &none).err(),
        Some(FcError::InvalidPath)
    );
}

#[test]
fn gunzip_rejects_corrupt_bytes() {
    let none: Vec<String> = Vec::new();
    let bytes = b"definitely not gzip".to_vec();
    let r = gunzip_file("x.gz", true, &bytes, None, None, &none);
    assert_eq!(r.err(), Some(FcError::IoError));
}

#[test]
fn packing_the_same_folder_twice_gives_identical_bytes() {
    let none: Vec<String> = Vec::new();
    let entries = proj_entries();
    let z1 = zip_folder("/tmp/proj", true, &entries, None, Some("zstd"), Some(5), None, &none)
        .unwrap();
    let z2 = zip_folder("/tmp/proj", true, &entries, None, Some("zstd"), Some(5), None, &none)
        .unwrap();
    assert_eq!(z1.bytes, z2.bytes);

    let t1 = tar_folder("/tmp/proj", true, &entries, None, None, &none).unwrap();
    let t2 = tar_folder("/tmp/proj", true, &entries, None, None, &none).unwrap();
    assert_eq!(t1.bytes, t2.bytes);

    let data = b"same input".to_vec();
    let g1 = gzip_file("a.txt", true, &data, None, None, None, &none).unwrap();
    let g2 = gzip_file("a.txt", true, &data, None, None, None, &none).unwrap();
    assert_eq!(g1.bytes, g2.bytes);
}

#[test]
fn gunzip_conflict_suffix_goes_before_the_extension() {
    let data = b"abc".to_vec();
    let none: Vec<String> = Vec::new();
    let packed = gzip_file("notes.txt", true, &data, None, None, None, &none).unwrap();
    let existing = vec!["notes.txt".to_string()];
    let unpacked =
        gunzip_file("notes.txt.gz", true, &packed.bytes, None, None, &existing).unwrap();
    assert_eq!(unpacked.target.final_path, "notes-1.txt");
}

#[test]
fn zip_level_zero_passes_validation_but_the_codec_refuses_it() {
    // Level 0 is a legal Deflate/Bzip2 level for the engine's own
    // validation, but the zip codec's accepted ranges start at 1, so
    // packing a folder with a file in it fails at the codec, not at
    // validation.
    let none: Vec<String> = Vec::new();
    for token in ["deflate", "bzip2"] {
        let r = zip_folder(
            "/tmp/proj",
            true,
            &proj_entries(),
            None,
            Some(token),
            Some(0),
            None,
            &none,
        );
        assert_eq!(r.err(), Some(FcError::ArchiveWriteError));
    }
    // A folder with no file entries never reaches a compressor, so level 0
    // still packs.
    let dirs_only = vec![dir_entry("sub")];
    let r = zip_folder("/tmp/proj", true, &dirs_only, None, Some("deflate"), Some(0), None, &none);
    assert!(r.is_ok());
}

#[test]
fn zip_rejects_duplicate_member_names() {
    let none: Vec<String> = Vec::new();
    let entries = vec![file_entry("a.txt", b"one"), file_entry("a.txt", b"two")];
    let r = zip_folder("/tmp/proj", true, &entries, None, None, None, None, &none);
    assert_eq!(r.err(), Some(FcError::ArchiveWriteError));
}

#[test]
fn unzip_sanitizes_hostile_member_names() {
    // Build a container whose stored names try to escape the extraction
    // root; the unpacker must hand back names with the special components
    // stripped.
    let mut writer = zip::ZipWriter::new(std::io::Cursor::new(Vec::new()));
    let options = zip::write::SimpleFileOptions::default();
    writer.start_file("../evil.txt", options).unwrap();
    std::io::Write::write_all(&mut writer, b"gotcha").unwrap();
    writer.start_file("/abs/path.txt", options).unwrap();
    std::io::Write::write_all(&mut writer, b"abs").unwrap();
    let bytes = writer.finish().unwrap().into_inner();

    let none: Vec<String> = Vec::new();
    let unpacked = unzip_folder("/tmp/x.zip", true, &bytes, None, None, &none).unwrap();
    let names: Vec<&str> = unpacked.entries.iter().map(|e| e.rel_path.as_str()).collect();
    assert_eq!(names, vec!["evil.txt", "abs/path.txt"]);
    for e in &unpacked.entries {
        assert!(fecr::entry::rel_path_ok(e.rel_path.as_str()));
    }
}

#[test]
fn gzip_container_carries_a_zero_timestamp() {
    // The four mtime bytes of the gzip header are fixed at zero, which is
    // what keeps the container a function of the payload and level alone.
    let none: Vec<String> = Vec::new();
    let packed = gzip_file("a.txt", true, &b"abc".to_vec(), None, None, None, &none).unwrap();
    assert_eq!(&packed.bytes[4..8], &[0u8, 0, 0, 0]);
}
