use std::collections::BTreeSet;
use std::io::Write;
use std::path::Path;

use rerun_except::{build_overrides, tracked_files, RerunError, WalkEntry};
use tempfile::TempDir;

fn add_file(dir: &Path, name: &str, contents: &[u8]) {
    let mut f = tempfile::Builder::new()
        .prefix(name)
        .rand_bytes(0)
        .disable_cleanup(true)
        .tempfile_in(dir)
        .unwrap();
    f.write_all(contents).unwrap();
}

fn add_dir(dir: &Path, name: &str) -> std::path::PathBuf {
    let d = tempfile::Builder::new()
        .prefix(name)
        .rand_bytes(0)
        .disable_cleanup(true)
        .tempdir_in(dir)
        .unwrap();
    d.path().to_path_buf()
}

/// The tree `{a.txt, b.txt, sub/c.lang, sub/d.lang}`.
fn sample_tree() -> TempDir {
    let root = tempfile::tempdir().unwrap();
    add_file(root.path(), "a.txt", b"a");
    add_file(root.path(), "b.txt", b"b");
    let sub = add_dir(root.path(), "sub");
    add_file(&sub, "c.lang", b"c");
    add_file(&sub, "d.lang", b"d");
    root
}

/// Walk `root` with the overrides built from `globs`, and return the tracked
/// files relative to `root`.
fn walk(root: &Path, globs: &[&str]) -> Result<BTreeSet<String>, RerunError> {
    let root_s = root.to_str().unwrap();
    let ov = build_overrides(root_s, globs)?;
    let mut entries = Vec::new();
    for r in ignore::WalkBuilder::new(root_s).overrides(ov).build() {
        entries.push(match r {
            Ok(e) => WalkEntry {
                readable: true,
                is_dir: e.path().is_dir(),
                path: e.path().to_str().map(|s| s.to_string()),
            },
            Err(_) => WalkEntry { readable: false, is_dir: false, path: None },
        });
    }
    let prefix = format!("{}/", root_s);
    Ok(tracked_files(root_s, &entries)
        .into_iter()
        .map(|p| p.strip_prefix(&prefix).unwrap().to_string())
        .collect())
}

fn set(items: &[&str]) -> BTreeSet<String> {
    items.iter().map(|s| s.to_string()).collect()
}

#[test]
fn excluded_glob_leaves_other_files() {
    let root = sample_tree();
    assert_eq!(walk(root.path(), &["sub/*.lang"]).unwrap(), set(&["a.txt", "b.txt"]));
}

#[test]
fn no_patterns_track_every_file() {
    let root = sample_tree();
    assert_eq!(
        walk(root.path(), &[]).unwrap(),
        set(&["a.txt", "b.txt", "sub/c.lang", "sub/d.lang"])
    );
}

#[test]
fn ignore_file_excludes_directory() {
    let root = sample_tree();
    add_file(root.path(), ".ignore", b"build/\n");
    let build = add_dir(root.path(), "build");
    add_file(&build, "out.o", b"o");
    add_file(&build, "log.txt", b"l");
    let got = walk(root.path(), &[]).unwrap();
    assert!(got.iter().all(|p| !p.starts_with("build/")));
    assert_eq!(got, set(&["a.txt", "b.txt", "sub/c.lang", "sub/d.lang"]));
}

#[test]
fn negated_pattern_gives_error_not_empty_set() {
    let root = sample_tree();
    assert_eq!(walk(root.path(), &["!x"]), Err(RerunError::InvalidPattern));
}

#[test]
fn second_walk_tracks_same_set() {
    let root = sample_tree();
    let first = walk(root.path(), &["*.txt"]).unwrap();
    let second = walk(root.path(), &["*.txt"]).unwrap();
    assert_eq!(first, second);
    assert_eq!(first, set(&["sub/c.lang", "sub/d.lang"]));
}

#[test]
fn new_file_changes_tracked_set() {
    let root = sample_tree();
    let before = walk(root.path(), &["sub/*.lang"]).unwrap();
    add_file(&root.path().join("sub"), "build.rs", b"fn main() {}");
    let after = walk(root.path(), &["sub/*.lang"]).unwrap();
    assert_ne!(before, after);
    assert_eq!(after, set(&["a.txt", "b.txt", "sub/build.rs"]));
}

#[test]
fn new_excluded_file_leaves_tracked_set() {
    let root = sample_tree();
    let before = walk(root.path(), &["sub/*.lang"]).unwrap();
    add_file(&root.path().join("sub"), "e.lang", b"e");
    assert_eq!(walk(root.path(), &["sub/*.lang"]).unwrap(), before);
}

#[test]
fn root_and_directories_absent_from_walk() {
    let root = sample_tree();
    let got = walk(root.path(), &[]).unwrap();
    assert!(!got.contains(""));
    assert!(!got.contains("sub"));
}
