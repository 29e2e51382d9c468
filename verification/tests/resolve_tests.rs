//! The path resolver: names, parents, extensions, conflict suffixes.

use fecr::entry::{entries_well_formed, rel_path_ok, ArchiveEntry, EntryKind};
use fecr::resolve::{
    file_name_of, join_path, parent_of, resolve_free_target, split_extension,
};

#[test]
fn file_name_of_plain_paths() {
    assert_eq!(file_name_of("/tmp/proj").unwrap(), "proj");
    assert_eq!(file_name_of("proj").unwrap(), "proj");
    assert_eq!(file_name_of("a/b/c.txt").unwrap(), "c.txt");
    assert_eq!(file_name_of("a/b/").unwrap(), "b");
}

#[test]
fn file_name_of_rejects_bare_roots() {
    assert!(file_name_of("/").is_none());
    assert!(file_name_of("").is_none());
    assert!(file_name_of(".").is_none());
    assert!(file_name_of("..").is_none());
    assert!(file_name_of("a/..").is_none());
}

#[test]
fn parent_of_keeps_the_separator() {
    assert_eq!(parent_of("/tmp/proj"), "/tmp/");
    assert_eq!(parent_of("/a"), "/");
    assert_eq!(parent_of("bare"), "");
    assert_eq!(parent_of("a/b/c"), "a/b/");
}

#[test]
fn split_extension_cases() {
    assert_eq!(split_extension("out.zip"), ("out".to_string(), ".zip".to_string()));
    assert_eq!(
        split_extension("archive.tar.gz"),
        ("archive.tar".to_string(), ".gz".to_string())
    );
    assert_eq!(split_extension("plain"), ("plain".to_string(), "".to_string()));
    assert_eq!(
        split_extension(".hidden"),
        (".hidden".to_string(), "".to_string())
    );
}

#[test]
fn join_path_cases() {
    assert_eq!(join_path("", "b"), "b");
    assert_eq!(join_path("a", "b"), "a/b");
    assert_eq!(join_path("a/", "b"), "a/b");
    assert_eq!(join_path("/", "b"), "/b");
}

#[test]
fn resolve_without_conflict_uses_the_plain_name() {
    let existing: Vec<String> = Vec::new();
    let t = resolve_free_target("", "out", ".zip", &existing);
    assert_eq!(t.final_path, "out.zip");
    assert_eq!(t.conflict_suffix, None);
}

#[test]
fn resolve_with_one_conflict_appends_1() {
    let existing = vec!["out.zip".to_string()];
    let t = resolve_free_target("", "out", ".zip", &existing);
    assert_eq!(t.final_path, "out-1.zip");
    assert_eq!(t.conflict_suffix, Some(1));
}

#[test]
fn resolve_with_two_conflicts_appends_2() {
    let existing = vec!["out.zip".to_string(), "out-1.zip".to_string()];
    let t = resolve_free_target("", "out", ".zip", &existing);
    assert_eq!(t.final_path, "out-2.zip");
    assert_eq!(t.conflict_suffix, Some(2));
}

#[test]
fn resolve_skips_only_occupied_candidates() {
    // The plain name is taken but `-1` is free; unrelated names change
    // nothing.
    let existing = vec![
        "dir/out".to_string(),
        "dir/other".to_string(),
        "dir/out-2".to_string(),
    ];
    let t = resolve_free_target("dir", "out", "", &existing);
    assert_eq!(t.final_path, "dir/out-1");
    assert_eq!(t.conflict_suffix, Some(1));
}

#[test]
fn resolve_for_directories_suffixes_at_the_end() {
    let existing = vec!["/tmp/proj".to_string()];
    let t = resolve_free_target("/tmp/", "proj", "", &existing);
    assert_eq!(t.final_path, "/tmp/proj-1");
    assert_eq!(t.conflict_suffix, Some(1));
}

#[test]
fn resolve_counts_past_ten() {
    let mut existing: Vec<String> = vec!["n.tar".to_string()];
    for k in 1..=10 {
        existing.push(format!("n-{}.tar", k));
    }
    let t = resolve_free_target("", "n", ".tar", &existing);
    assert_eq!(t.final_path, "n-11.tar");
    assert_eq!(t.conflict_suffix, Some(11));
}

#[test]
fn relative_path_checks() {
    assert!(rel_path_ok("a.txt"));
    assert!(rel_path_ok("sub/inner.txt"));
    assert!(rel_path_ok("a..b"));
    assert!(rel_path_ok("..a/b"));
    assert!(!rel_path_ok(""));
    assert!(!rel_path_ok("/abs"));
    assert!(!rel_path_ok(".."));
    assert!(!rel_path_ok("../x"));
    assert!(!rel_path_ok("a/../b"));
    assert!(!rel_path_ok("a/.."));
}

#[test]
fn entries_well_formed_checks_every_entry() {
    let good = vec![
        ArchiveEntry {
            rel_path: "a.txt".to_string(),
            kind: EntryKind::File,
            mode: None,
            data: b"x".to_vec(),
        },
        ArchiveEntry {
            rel_path: "sub".to_string(),
            kind: EntryKind::Directory,
            mode: None,
            data: Vec::new(),
        },
    ];
    assert!(entries_well_formed(&good));
    let bad = vec![ArchiveEntry {
        rel_path: "../escape".to_string(),
        kind: EntryKind::File,
        mode: None,
        data: Vec::new(),
    }];
    assert!(!entries_well_formed(&bad));
}

#[test]
fn relative_paths_reject_nul_characters() {
    assert!(!rel_path_ok("a\u{0}b"));
    assert!(!rel_path_ok("\u{0}"));
    assert!(rel_path_ok("a b"));
}
