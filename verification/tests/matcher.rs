use std::path::PathBuf;
use std::sync::atomic::AtomicBool;
use std::sync::Arc;

use rust_search::search::config::SearchConfig;
use rust_search::search::line_kind::LineKind;
use rust_search::search::matcher::{Matcher, SearchMatch};
use rust_search::SearchError;

fn search(config: &SearchConfig, content: &[u8], cancelled: bool) -> Vec<SearchMatch> {
    let matcher = Matcher::new(config).unwrap();
    let cancel = Arc::new(AtomicBool::new(cancelled));
    matcher.search_slice(&PathBuf::from("test.txt"), content, &cancel).unwrap()
}

fn config(pattern: &str) -> SearchConfig {
    SearchConfig::new(vec![PathBuf::from("/tmp")], pattern.into())
}

#[test]
fn test_search_literal_match() {
    let content = "hello world\nfoo bar\nhello rust\n";
    let matches = search(&config("hello"), content.as_bytes(), false);
    assert_eq!(matches.len(), 2);
    assert_eq!(matches[0].line_number, 1);
    assert_eq!(matches[1].line_number, 3);
}

#[test]
fn test_search_case_insensitive() {
    let content = "Hello\nHELLO\nhello\n";
    let matches = search(&config("hello"), content.as_bytes(), false);
    assert_eq!(matches.len(), 3);
}

#[test]
fn test_search_case_sensitive() {
    let content = "Hello\nHELLO\nhello\n";
    let mut c = config("hello");
    c.case_sensitive = true;
    let matches = search(&c, content.as_bytes(), false);
    assert_eq!(matches.len(), 1);
    assert_eq!(matches[0].line_number, 3);
}

#[test]
fn test_search_regex() {
    let content = "abc123\ndef456\nghi\n";
    let mut c = config(r"\d+");
    c.is_regex = true;
    let matches = search(&c, content.as_bytes(), false);
    assert_eq!(matches.len(), 2);
}

#[test]
fn test_search_whole_words() {
    let content = "foo\nfoobar\nfoo bar\n";
    let mut c = config("foo");
    c.whole_words = true;
    let matches = search(&c, content.as_bytes(), false);
    assert_eq!(matches.len(), 2);
}

#[test]
fn matcher_test_search_cancel() {
    let content = "test\ntest\ntest\ntest\n";
    let matches = search(&config("test"), content.as_bytes(), true);
    assert_eq!(matches.len(), 0);
}

#[test]
fn test_search_max_matches() {
    let content = "test\ntest\ntest\ntest\ntest\n";
    let mut c = config("test");
    c.max_matches_per_file = 2;
    let matches = search(&c, content.as_bytes(), false);
    assert_eq!(matches.len(), 2);
}

#[test]
fn test_search_chinese_content() {
    let content = "你好世界\n测试内容\n你好 rust\n";
    let matches = search(&config("你好"), content.as_bytes(), false);
    assert_eq!(matches.len(), 2);
    assert_eq!(matches[0].line_number, 1);
    assert_eq!(matches[1].line_number, 3);
}

#[test]
fn match_fields() {
    let content = "alpha\n  // beta\ngamma\n";
    let mut c = config("beta");
    c.context_lines = 1;
    let matches = search(&c, content.as_bytes(), false);
    assert_eq!(matches.len(), 1);
    let m = &matches[0];
    assert_eq!(m.file_path, PathBuf::from("test.txt"));
    assert_eq!(m.line_number, 2);
    assert_eq!(m.column, 5);
    assert_eq!(m.matched_text, "  // beta\n");
    assert_eq!(m.line_kind, LineKind::Comment);
    assert_eq!(m.context_before, vec!["alpha".to_string()]);
    assert_eq!(m.context_after, vec!["gamma".to_string()]);
}

#[test]
fn no_context_without_context_lines() {
    let content = "alpha\nbeta\ngamma\n";
    let matches = search(&config("beta"), content.as_bytes(), false);
    assert!(matches[0].context_before.is_empty());
    assert!(matches[0].context_after.is_empty());
}

#[test]
fn line_kind_filters() {
    let content = "package com.example\nimport com.example.Target\n// Target here\nval t = Target()\n";
    let all = search(&config("target"), content.as_bytes(), false);
    assert_eq!(all.len(), 3);

    let mut c = config("target");
    c.skip_comments = true;
    let kinds: Vec<LineKind> = search(&c, content.as_bytes(), false).iter().map(|m| m.line_kind).collect();
    assert_eq!(kinds, vec![LineKind::Import, LineKind::Code]);

    c.skip_imports = true;
    let kinds: Vec<LineKind> = search(&c, content.as_bytes(), false).iter().map(|m| m.line_kind).collect();
    assert_eq!(kinds, vec![LineKind::Code]);

    let mut p = config("example");
    p.skip_packages = true;
    let kinds: Vec<LineKind> = search(&p, content.as_bytes(), false).iter().map(|m| m.line_kind).collect();
    assert_eq!(kinds, vec![LineKind::Import]);
}

#[test]
fn filtered_lines_do_not_count_toward_the_limit() {
    let content = "// x\n// x\nx\nx\n";
    let mut c = config("x");
    c.skip_comments = true;
    c.max_matches_per_file = 2;
    let matches = search(&c, content.as_bytes(), false);
    assert_eq!(matches.len(), 2);
    assert_eq!(matches[0].line_number, 3);
    assert_eq!(matches[1].line_number, 4);
}

#[test]
fn non_utf8_lines_are_decoded_lossily() {
    let content = b"ok\n\xFF\xFEneedle\nend\n";
    let matches = search(&config("needle"), content, false);
    assert_eq!(matches.len(), 1);
    assert_eq!(matches[0].matched_text, "\u{FFFD}\u{FFFD}needle\n");
}

#[test]
fn invalid_regex_is_a_compile_error() {
    let mut c = config("(");
    c.is_regex = true;
    match Matcher::new(&c) {
        Err(SearchError::RegexCompile(m)) => assert!(m.starts_with("正则编译失败 '(?i)(': ")),
        other => panic!("unexpected: {:?}", other.map(|_| ())),
    }
}

#[test]
fn literal_pattern_is_escaped() {
    let content = "a.c\nabc\n";
    let matches = search(&config("a.c"), content.as_bytes(), false);
    assert_eq!(matches.len(), 1);
    assert_eq!(matches[0].line_number, 1);
}

#[test]
fn column_is_the_offset_of_the_match() {
    let matches = search(&config("hello"), "foo hello\n".as_bytes(), false);
    assert_eq!(matches.len(), 1);
    assert_eq!(matches[0].line_number, 1);
    assert_eq!(matches[0].column, 4);
    let matches = search(&config("HELLO"), "hello\n  xHello\n".as_bytes(), false);
    assert_eq!(matches.iter().map(|m| m.column).collect::<Vec<_>>(), vec![0, 3]);
    let mut c = config(r"\d+");
    c.is_regex = true;
    let matches = search(&c, "abc123\n".as_bytes(), false);
    assert_eq!(matches[0].column, 3);
}

#[test]
fn observed_search_notes_cancellation() {
    let matcher = Matcher::new(&config("test")).unwrap();
    let content = "test\ntest\ntest\n".as_bytes();
    let (r, saw) = matcher.search_slice_observed(&PathBuf::from("t"), content, &Arc::new(AtomicBool::new(false)));
    assert!(!saw);
    assert_eq!(r.unwrap().len(), 3);
    let (r, saw) = matcher.search_slice_observed(&PathBuf::from("t"), content, &Arc::new(AtomicBool::new(true)));
    assert!(saw);
    assert!(r.unwrap().is_empty());
    let (r, saw) = matcher.search_slice_observed(&PathBuf::from("t"), b"nothing\n", &Arc::new(AtomicBool::new(true)));
    assert!(!saw);
    assert!(r.unwrap().is_empty());
}

#[test]
fn binary_content_gives_no_match_past_a_nul() {
    let content = b"hello\x00world\nhello again\n";
    let matches = search(&config("hello"), content, false);
    assert!(matches.is_empty());
}

#[test]
fn matches_come_in_line_order() {
    let content = "b hello\na\nhello c\nhello d\n";
    let matches = search(&config("hello"), content.as_bytes(), false);
    let lines: Vec<usize> = matches.iter().map(|m| m.line_number).collect();
    assert_eq!(lines, vec![1, 3, 4]);
}
