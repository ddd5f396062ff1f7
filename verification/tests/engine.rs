use std::path::PathBuf;
use std::sync::atomic::Ordering;

use rust_search::search::config::SearchConfig;
use rust_search::search::engine::SearchEngine;
use rust_search::search::line_kind::LineKind;
use rust_search::search::matcher::SearchMatch;
use rust_search::search::stream::{stream_entry_step, stream_matcher, stream_outcome, WalkItem};
use rust_search::SearchError;

fn m(line: usize) -> SearchMatch {
    SearchMatch {
        file_path: PathBuf::from("f.txt"),
        line_number: line,
        column: 0,
        matched_text: format!("line {line}\n"),
        context_before: vec![],
        context_after: vec![],
        line_kind: LineKind::Code,
    }
}

fn lines(v: &[SearchMatch]) -> Vec<usize> {
    v.iter().map(|m| m.line_number).collect()
}

fn make_engine(max_total: usize) -> SearchEngine {
    let mut config = SearchConfig::new(vec![PathBuf::from("/")], "x".into());
    config.max_total_matches = max_total;
    SearchEngine::new(config)
}

fn io_error() -> SearchError {
    SearchError::Io(std::io::Error::other("gone"))
}

#[test]
fn engine_test_search_cancel() {
    let dir = tempfile::tempdir().unwrap();
    let config = SearchConfig::new(vec![dir.path().to_path_buf()], "hello".into());
    let engine = SearchEngine::new(config);
    engine.cancel();
    assert!(matches!(engine.prepare(), Err(SearchError::Cancelled)));
}

#[test]
fn prepare_validates_first() {
    let engine = SearchEngine::new(SearchConfig::new(vec![PathBuf::from("/nonexistent_path_12345")], "x".into()));
    assert!(matches!(engine.prepare(), Err(SearchError::InvalidRoot(_))));
    let mut config = SearchConfig::new(vec![PathBuf::from("/")], "(".into());
    config.is_regex = true;
    assert!(matches!(SearchEngine::new(config).prepare(), Err(SearchError::RegexCompile(_))));
}

#[test]
fn prepare_lists_the_files() {
    let dir = tempfile::tempdir().unwrap();
    let _file = tempfile::Builder::new().prefix("a.txt").rand_bytes(0).tempfile_in(dir.path()).unwrap();
    let engine = SearchEngine::new(SearchConfig::new(vec![dir.path().to_path_buf()], "x".into()));
    let (files, _matcher) = engine.prepare().unwrap();
    assert_eq!(files.len(), 1);
    assert_eq!(files[0].file_name().unwrap(), "a.txt");
}

#[test]
fn cancel_handle_shares_the_flag() {
    let engine = make_engine(10);
    let handle = engine.cancel_handle();
    assert!(!engine.is_cancelled());
    handle.store(true, Ordering::Relaxed);
    assert!(engine.is_cancelled());
    let other = make_engine(10);
    other.cancel();
    assert!(other.cancel_handle().load(Ordering::Relaxed));
}

#[test]
fn io_and_jni_failures_of_one_file_count_as_no_matches() {
    assert!(SearchEngine::admit_file_result(Err(io_error())).unwrap().is_empty());
    assert!(SearchEngine::admit_file_result(Err(SearchError::Jni("x".into()))).unwrap().is_empty());
    assert_eq!(lines(&SearchEngine::admit_file_result(Ok(vec![m(4)])).unwrap()), vec![4]);
    assert!(matches!(
        SearchEngine::admit_file_result(Err(SearchError::RegexCompile("r".into()))),
        Err(SearchError::RegexCompile(_))
    ));
}

#[test]
fn finish_merges_in_order_under_the_limit() {
    let engine = make_engine(3);
    let all = engine.finish_with(vec![Ok(vec![m(1), m(2)]), Ok(vec![]), Ok(vec![m(3), m(4)])], false).unwrap();
    assert_eq!(lines(&all), vec![1, 2, 3]);
    let few = engine.finish_with(vec![Ok(vec![m(7)])], false).unwrap();
    assert_eq!(lines(&few), vec![7]);
}

#[test]
fn merge_cuts_to_the_global_limit() {
    let engine = make_engine(2);
    let all = engine.finish_with(vec![Ok(vec![m(1)]), Ok(vec![m(2)]), Ok(vec![m(3)])], false).unwrap();
    assert_eq!(all.len(), 2);
}

#[test]
fn finish_reports_the_first_failure_then_cancellation() {
    let engine = make_engine(10);
    let r = engine.finish_with(
        vec![Ok(vec![m(1)]), Err(SearchError::InvalidPattern("p".into())), Err(SearchError::Internal("i".into()))],
        true,
    );
    assert!(matches!(r, Err(SearchError::InvalidPattern(ref s)) if s == "p"));
    let r = engine.finish_with(vec![Ok(vec![m(1)])], true);
    assert!(matches!(r, Err(SearchError::Cancelled)));
    let r = engine.finish(vec![Ok(vec![m(1)])]);
    assert_eq!(lines(&r.unwrap()), vec![1]);
}

#[test]
fn stream_steps() {
    assert!(matches!(stream_entry_step(true, 0, 5, WalkItem::File(PathBuf::from("a"))), Err(SearchError::Cancelled)));
    assert!(matches!(stream_entry_step(false, 5, 5, WalkItem::File(PathBuf::from("a"))), Err(SearchError::Cancelled)));
    assert_eq!(stream_entry_step(false, 4, 5, WalkItem::File(PathBuf::from("a"))).unwrap(), Some(PathBuf::from("a")));
    assert_eq!(stream_entry_step(false, 0, 5, WalkItem::NotAFile).unwrap(), None);
    assert_eq!(stream_entry_step(false, 0, 5, WalkItem::Unreadable).unwrap(), None);

    assert!(stream_outcome(Err(SearchError::Cancelled)).is_ok());
    assert!(stream_outcome(Ok(())).is_ok());
    assert!(matches!(stream_outcome(Err(io_error())), Err(SearchError::Io(_))));

    let config = SearchConfig::new(vec![PathBuf::from("/")], "x".into());
    assert!(matches!(stream_matcher(&config, true), Err(SearchError::Cancelled)));
    assert!(stream_matcher(&config, false).is_ok());
}

#[test]
fn prepare_listed_honours_the_cancel_reading() {
    let engine = make_engine(10);
    let files = vec![PathBuf::from("/a.txt"), PathBuf::from("/b.txt")];
    assert!(matches!(engine.prepare_listed(files.clone(), true), Err(SearchError::Cancelled)));
    let (kept, _matcher) = engine.prepare_listed(files.clone(), false).unwrap();
    assert_eq!(kept, files);
}
