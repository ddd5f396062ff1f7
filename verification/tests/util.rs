use std::path::Path;

use rust_search::util::path::{is_hidden, path_to_string};
use rust_search::util::platform::{dynamic_lib_extension, dynamic_lib_filename};
use rust_search::util::text::{joined, decimal_string, same_text, trim_line_end};

#[test]
fn test_is_hidden() {
    assert!(is_hidden("/tmp/.hidden"));
    assert!(is_hidden("/tmp/.gitignore"));
    assert!(!is_hidden("/tmp/normal.txt"));
    assert!(!is_hidden("/tmp/dir"));
}

#[test]
fn is_hidden_edge_cases() {
    assert!(!is_hidden("/"));
    assert!(!is_hidden(""));
    assert!(!is_hidden("/tmp/.."));
    assert!(is_hidden(".profile"));
    assert!(is_hidden("/tmp/.config/"));
    assert!(!is_hidden("/tmp/.config/app.toml"));
}

#[test]
fn test_path_to_string() {
    assert_eq!(path_to_string(Path::new("/tmp/test")), "/tmp/test");
}

#[test]
fn test_dynamic_lib_extension() {
    assert_eq!(dynamic_lib_extension("macos"), "dylib");
    assert_eq!(dynamic_lib_extension("linux"), "so");
    assert_eq!(dynamic_lib_extension("windows"), "dll");
}

#[test]
fn dynamic_lib_extension_other_systems() {
    assert_eq!(dynamic_lib_extension("freebsd"), "so");
    assert_eq!(dynamic_lib_extension(""), "so");
    assert_eq!(dynamic_lib_extension("Windows"), "so");
}

#[test]
fn test_dynamic_lib_filename() {
    assert_eq!(dynamic_lib_filename("macos", "rust_search"), "librust_search.dylib");
    assert_eq!(dynamic_lib_filename("linux", "rust_search"), "librust_search.so");
    assert_eq!(dynamic_lib_filename("windows", "rust_search"), "rust_search.dll");
}

#[test]
fn text_helpers() {
    assert_eq!(decimal_string(0), "0");
    assert_eq!(decimal_string(1_000_000), "1000000");
    assert_eq!(decimal_string(u64::MAX), "18446744073709551615");
    assert_eq!(joined("ab", "cd"), "abcd");
    assert!(same_text("中文", "中文"));
    assert!(!same_text("abc", "abd"));
    assert!(!same_text("abc", "ab"));
    assert_eq!(trim_line_end("line\r\n"), "line");
    assert_eq!(trim_line_end("line\n\n"), "line");
    assert_eq!(trim_line_end("line"), "line");
}
