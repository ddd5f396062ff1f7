use std::io::Write;
use std::path::{Path, PathBuf};

use rust_search::search::config::SearchConfig;
use rust_search::search::walker::Walker;
use rust_search::SearchError;
use rust_search::search::walker::{files_of_walks, walk_has_error, WalkEntry};

fn write_file(dir: &Path, name: &str, content: &str) {
    let mut file = tempfile::Builder::new()
        .prefix(name)
        .suffix("")
        .rand_bytes(0)
        .keep(true)
        .tempfile_in(dir)
        .unwrap();
    file.write_all(content.as_bytes()).unwrap();
}

fn make_dir(dir: &Path, name: &str) -> PathBuf {
    let sub = tempfile::Builder::new().prefix(name).rand_bytes(0).keep(true).tempdir_in(dir).unwrap();
    sub.path().to_path_buf()
}

fn create_test_tree() -> tempfile::TempDir {
    let dir = tempfile::tempdir().unwrap();
    let root = dir.path();
    write_file(root, "a.kt", "fun main()");
    write_file(root, "b.java", "class B {}");
    write_file(root, "c.txt", "hello");
    let build = make_dir(root, "build");
    write_file(&build, "out.kt", "compiled");
    let hidden = make_dir(root, ".hidden");
    write_file(&hidden, "secret.kt", "secret");
    dir
}

fn names(files: &[PathBuf]) -> Vec<String> {
    files.iter().map(|f| f.file_name().unwrap().to_string_lossy().to_string()).collect()
}

#[test]
fn test_walk_all_files() {
    let dir = create_test_tree();
    let config = SearchConfig::new(vec![dir.path().to_path_buf()], "test".into());
    let files = Walker::new(config).files().unwrap();
    let names = names(&files);
    assert!(names.contains(&"a.kt".to_string()));
    assert!(names.contains(&"b.java".to_string()));
    assert!(names.contains(&"c.txt".to_string()));
    assert!(!names.contains(&"secret.kt".to_string()));
}

#[test]
fn test_walk_with_include_glob() {
    let dir = create_test_tree();
    let mut config = SearchConfig::new(vec![dir.path().to_path_buf()], "test".into());
    config.include_globs = vec!["*.kt".to_string()];
    let files = Walker::new(config).files().unwrap();
    assert!(files.iter().all(|f| f.extension().map(|e| e == "kt").unwrap_or(false)));
    assert_eq!(files.len(), 2);
}

#[test]
fn test_walk_with_exclude_glob() {
    let dir = create_test_tree();
    let mut config = SearchConfig::new(vec![dir.path().to_path_buf()], "test".into());
    config.exclude_globs = vec!["build/*".to_string()];
    let files = Walker::new(config).files().unwrap();
    assert!(!names(&files).contains(&"out.kt".to_string()));
}

#[test]
fn test_walk_nonexistent_root() {
    let config = SearchConfig::new(vec![PathBuf::from("/nonexistent_path_12345")], "test".into());
    let walker = Walker::new(config);
    let result = walker.files();
    assert!(result.is_err() || result.unwrap().is_empty());
}

#[test]
fn hidden_files_when_asked() {
    let dir = create_test_tree();
    let mut config = SearchConfig::new(vec![dir.path().to_path_buf()], "test".into());
    config.search_hidden = true;
    let files = Walker::new(config).files().unwrap();
    assert!(names(&files).contains(&"secret.kt".to_string()));
}

#[test]
fn no_roots_no_files() {
    let config = SearchConfig::new(vec![], "test".into());
    assert!(Walker::new(config).files().unwrap().is_empty());
}

#[test]
fn bad_glob_is_an_invalid_pattern() {
    let dir = tempfile::tempdir().unwrap();
    let mut config = SearchConfig::new(vec![dir.path().to_path_buf()], "test".into());
    config.include_globs = vec!["a[".to_string()];
    match Walker::new(config).files() {
        Err(SearchError::InvalidPattern(m)) => assert!(m.contains("a[")),
        other => panic!("unexpected: {:?}", other.map(|v| v.len())),
    }
    let mut config = SearchConfig::new(vec![dir.path().to_path_buf()], "test".into());
    config.exclude_globs = vec!["b[".to_string()];
    assert!(matches!(Walker::new(config).files(), Err(SearchError::InvalidPattern(_))));
}

#[test]
fn several_roots_are_walked_in_turn() {
    let one = tempfile::tempdir().unwrap();
    let two = tempfile::tempdir().unwrap();
    write_file(one.path(), "a.txt", "hello from dir1\n");
    write_file(two.path(), "b.txt", "hello from dir2\n");
    let config = SearchConfig::new(vec![one.path().to_path_buf(), two.path().to_path_buf()], "hello".into());
    let files = Walker::new(config).files().unwrap();
    assert_eq!(names(&files), vec!["a.txt".to_string(), "b.txt".to_string()]);
}

#[test]
fn walk_iterates_the_same_tree() {
    let dir = create_test_tree();
    let mut config = SearchConfig::new(vec![dir.path().to_path_buf()], "test".into());
    config.include_globs = vec!["*.kt".to_string()];
    let mut found: Vec<String> = Walker::new(config)
        .walk()
        .into_walk()
        .filter_map(|e| e.ok())
        .filter(|e| e.file_type().map(|t| t.is_file()).unwrap_or(false))
        .map(|e| e.file_name().to_string_lossy().to_string())
        .collect();
    found.sort();
    assert_eq!(found, vec!["a.kt".to_string(), "out.kt".to_string()]);
}

#[test]
fn plans_hand_the_configured_settings_to_the_walk() {
    let dir = create_test_tree();
    let mut config = SearchConfig::new(vec![dir.path().to_path_buf()], "test".into());
    config.include_globs = vec!["*.kt".to_string(), "a[".to_string()];
    let walker = Walker::new(config);
    assert!(matches!(walker.plan_root(&dir.path().to_path_buf()), Err(SearchError::InvalidPattern(_))));
    // the walk leaves the glob that does not parse out
    let mut found: Vec<String> = walker
        .plan_walk()
        .build()
        .filter_map(|e| e.ok())
        .filter(|e| e.file_type().map(|t| t.is_file()).unwrap_or(false))
        .map(|e| e.file_name().to_string_lossy().to_string())
        .collect();
    found.sort();
    assert_eq!(found, vec!["a.kt".to_string(), "out.kt".to_string()]);
}

fn file_entry(path: &str) -> Result<WalkEntry, String> {
    Ok(WalkEntry { path: PathBuf::from(path), is_file: Some(true) })
}

fn dir_entry(path: &str) -> Result<WalkEntry, String> {
    Ok(WalkEntry { path: PathBuf::from(path), is_file: Some(false) })
}

#[test]
fn files_of_walks_joins_roots_in_order() {
    let walks = vec![
        vec![dir_entry("/a"), file_entry("/a/x.kt"), file_entry("/a/y.kt")],
        vec![],
        vec![dir_entry("/b"), file_entry("/b/z.kt")],
    ];
    let files = files_of_walks(walks).unwrap();
    assert_eq!(files, vec![PathBuf::from("/a/x.kt"), PathBuf::from("/a/y.kt"), PathBuf::from("/b/z.kt")]);
    assert!(files_of_walks(vec![]).unwrap().is_empty());
}

#[test]
fn files_of_walks_fails_on_a_walk_error() {
    let failing = vec![file_entry("/b/z.kt"), Err("unreadable".to_string())];
    assert!(walk_has_error(&failing));
    assert!(!walk_has_error(&vec![file_entry("/a/x.kt")]));
    let walks = vec![vec![file_entry("/a/x.kt")], failing];
    assert!(matches!(files_of_walks(walks), Err(SearchError::Io(_))));
}

