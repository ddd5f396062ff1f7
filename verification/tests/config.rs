use std::path::PathBuf;

use rust_search::jni::convert::{build_config_from_jni, jboolean_to_bool, jint_to_usize};
use rust_search::search::config::{SearchConfig, SearchConfigBuilder};
use rust_search::SearchError;
use rust_search::search::config::first_missing;

#[test]
fn test_build_regex_pattern_literal() {
    let config = SearchConfig::new(vec![], "hello.world".into());
    let pattern = config.build_regex_pattern();
    assert!(pattern.contains(r"\."));
    assert!(pattern.starts_with("(?i)"));
}

#[test]
fn test_build_regex_pattern_regex() {
    let mut config = SearchConfig::new(vec![], r"\d+".into());
    config.is_regex = true;
    config.case_sensitive = true;
    let pattern = config.build_regex_pattern();
    assert_eq!(pattern, r"\d+");
}

#[test]
fn test_build_regex_pattern_whole_words() {
    let mut config = SearchConfig::new(vec![], "foo".into());
    config.whole_words = true;
    let pattern = config.build_regex_pattern();
    assert!(pattern.contains(r"\bfoo\b"));
}

#[test]
fn build_regex_pattern_exact_forms() {
    let mut config = SearchConfig::new(vec![], "a+b".into());
    assert_eq!(config.build_regex_pattern(), r"(?i)a\+b");
    config.whole_words = true;
    assert_eq!(config.build_regex_pattern(), r"(?i)\ba\+b\b");
    config.case_sensitive = true;
    assert_eq!(config.build_regex_pattern(), r"\ba\+b\b");
    config.is_regex = true;
    assert_eq!(config.build_regex_pattern(), r"\ba+b\b");
}

#[test]
fn test_validate_empty_pattern() {
    let config = SearchConfig::new(vec![PathBuf::from("/")], "".into());
    assert!(config.validate().is_err());
}

#[test]
fn test_validate_nonexistent_root() {
    let config = SearchConfig::new(vec![PathBuf::from("/nonexistent_path_12345")], "test".into());
    assert!(config.validate().is_err());
}

fn message(r: Result<(), SearchError>) -> String {
    match r {
        Err(SearchError::InvalidPattern(m)) => format!("pattern: {m}"),
        Err(SearchError::InvalidRoot(m)) => format!("root: {m}"),
        Err(SearchError::RegexCompile(m)) => format!("regex: {m}"),
        Err(other) => format!("other: {other:?}"),
        Ok(()) => "ok".to_string(),
    }
}

#[test]
fn validate_reports_each_error() {
    let empty = SearchConfig::new(vec![PathBuf::from("/")], "".into());
    assert_eq!(message(empty.validate()), "pattern: 搜索模式为空");

    let no_roots = SearchConfig::new(vec![], "x".into());
    assert_eq!(message(no_roots.validate()), "root: 根目录列表为空");

    let missing = SearchConfig::new(vec![PathBuf::from("/nonexistent_path_12345")], "x".into());
    assert_eq!(message(missing.validate()), "root: 根目录不存在: /nonexistent_path_12345");

    let mut bad_regex = SearchConfig::new(vec![PathBuf::from("/")], "(".into());
    assert_eq!(message(bad_regex.validate()), "ok");
    bad_regex.is_regex = true;
    assert!(message(bad_regex.validate()).starts_with("regex: 正则表达式无效: "));

    let mut context = SearchConfig::new(vec![PathBuf::from("/")], "x".into());
    context.context_lines = 51;
    assert_eq!(message(context.validate()), "pattern: context_lines 超过上限 50 (实际 51)");
    context.context_lines = 50;
    assert_eq!(message(context.validate()), "ok");

    let mut per_file = SearchConfig::new(vec![PathBuf::from("/")], "x".into());
    per_file.max_matches_per_file = 100_001;
    assert_eq!(
        message(per_file.validate()),
        "pattern: max_matches_per_file 超过上限 100000 (实际 100001)"
    );

    let mut total = SearchConfig::new(vec![PathBuf::from("/")], "x".into());
    total.max_total_matches = 1_000_001;
    assert_eq!(
        message(total.validate()),
        "pattern: max_total_matches 超过上限 1000000 (实际 1000001)"
    );
}

#[test]
fn validate_probed_uses_the_given_missing_root() {
    let config = SearchConfig::new(vec![PathBuf::from("/")], "x".into());
    assert_eq!(message(config.validate_probed(None)), "ok");
    assert_eq!(
        message(config.validate_probed(Some("/gone".to_string()))),
        "root: 根目录不存在: /gone"
    );
}

#[test]
fn new_uses_defaults() {
    let config = SearchConfig::new(vec![PathBuf::from("/")], "x".into());
    assert!(!config.is_regex && !config.case_sensitive && !config.whole_words);
    assert!(config.include_globs.is_empty() && config.exclude_globs.is_empty());
    assert_eq!(config.context_lines, 0);
    assert_eq!(config.max_matches_per_file, 10_000);
    assert_eq!(config.max_total_matches, 100_000);
    assert!(!config.search_hidden && !config.skip_comments && !config.skip_imports && !config.skip_packages);
}

#[test]
fn builder_sets_every_field() {
    let config = SearchConfigBuilder::new()
        .roots(vec![PathBuf::from("/")])
        .pattern("needle")
        .regex(true)
        .case_sensitive(true)
        .whole_words(true)
        .include_globs(vec!["*.kt".to_string()])
        .exclude_globs(vec!["build/*".to_string()])
        .context_lines(3)
        .max_matches_per_file(7)
        .max_total_matches(9)
        .search_hidden(true)
        .skip_comments(true)
        .skip_imports(true)
        .skip_packages(true)
        .build()
        .unwrap();
    assert_eq!(config.roots, vec![PathBuf::from("/")]);
    assert_eq!(config.pattern, "needle");
    assert!(config.is_regex && config.case_sensitive && config.whole_words);
    assert_eq!(config.include_globs, vec!["*.kt".to_string()]);
    assert_eq!(config.exclude_globs, vec!["build/*".to_string()]);
    assert_eq!(config.context_lines, 3);
    assert_eq!(config.max_matches_per_file, 7);
    assert_eq!(config.max_total_matches, 9);
    assert!(config.search_hidden && config.skip_comments && config.skip_imports && config.skip_packages);
}

#[test]
fn builder_defaults_match_new() {
    let built = SearchConfigBuilder::new().roots(vec![PathBuf::from("/")]).pattern("x").build().unwrap();
    let made = SearchConfig::new(vec![PathBuf::from("/")], "x".into());
    assert_eq!(built.max_matches_per_file, made.max_matches_per_file);
    assert_eq!(built.max_total_matches, made.max_total_matches);
    assert_eq!(built.context_lines, made.context_lines);
    assert_eq!(built.is_regex, made.is_regex);
}

#[test]
fn builder_validates() {
    assert!(matches!(SearchConfigBuilder::new().roots(vec![PathBuf::from("/")]).build(), Err(SearchError::InvalidPattern(_))));
    assert!(matches!(SearchConfigBuilder::new().pattern("x").build(), Err(SearchError::InvalidRoot(_))));
    assert!(matches!(
        SearchConfigBuilder::new().roots(vec![PathBuf::from("/")]).pattern("x").context_lines(51).build(),
        Err(SearchError::InvalidPattern(_))
    ));
}

#[test]
fn clone_keeps_every_setting() {
    let mut config = SearchConfig::new(vec![PathBuf::from("/a")], "x".into());
    config.include_globs = vec!["*.rs".into()];
    config.skip_imports = true;
    let copy = config.clone();
    assert_eq!(copy.roots, config.roots);
    assert_eq!(copy.pattern, config.pattern);
    assert_eq!(copy.include_globs, config.include_globs);
    assert!(copy.skip_imports);
}

#[test]
fn jni_scalars() {
    assert!(!jboolean_to_bool(0));
    assert!(jboolean_to_bool(1));
    assert!(jboolean_to_bool(255));
    assert_eq!(jint_to_usize(-1), 0);
    assert_eq!(jint_to_usize(i32::MIN), 0);
    assert_eq!(jint_to_usize(0), 0);
    assert_eq!(jint_to_usize(42), 42);
    assert_eq!(jint_to_usize(i32::MAX), 2_147_483_647);
}

#[test]
fn jni_config_is_built_and_validated() {
    let config = build_config_from_jni(
        vec![PathBuf::from("/")],
        "needle".into(),
        1,
        0,
        1,
        vec!["*.kt".into()],
        vec!["build/*".into()],
        -5,
    )
    .unwrap();
    assert!(config.is_regex && !config.case_sensitive && config.whole_words);
    assert_eq!(config.include_globs, vec!["*.kt".to_string()]);
    assert_eq!(config.exclude_globs, vec!["build/*".to_string()]);
    assert_eq!(config.context_lines, 0);
    assert_eq!(config.max_total_matches, 100_000);

    let bad = build_config_from_jni(vec![PathBuf::from("/")], "x".into(), 0, 0, 0, vec![], vec![], 51);
    assert!(matches!(bad, Err(SearchError::InvalidPattern(_))));
    let missing = build_config_from_jni(vec![], "x".into(), 0, 0, 0, vec![], vec![], 2);
    assert!(matches!(missing, Err(SearchError::InvalidRoot(_))));
}

#[test]
fn first_missing_finds_the_first_false_probe() {
    assert_eq!(first_missing(&vec![true, false, false], 3), Some(1));
    assert_eq!(first_missing(&vec![true, true], 2), None);
    assert_eq!(first_missing(&vec![true, false], 1), None);
    assert_eq!(first_missing(&vec![], 2), None);
}

#[test]
fn validate_with_probes_reports_the_missing_root() {
    let config = SearchConfig::new(vec![PathBuf::from("/one"), PathBuf::from("/two")], "x".into());
    match config.validate_with_probes(vec![true, false]) {
        Err(SearchError::InvalidRoot(m)) => assert_eq!(m, "根目录不存在: /two"),
        other => panic!("unexpected: {other:?}"),
    }
    assert!(config.validate_with_probes(vec![true, true]).is_ok());
    let empty = SearchConfig::new(vec![], "x".into());
    match empty.validate_with_probes(vec![]) {
        Err(SearchError::InvalidRoot(m)) => assert_eq!(m, "根目录列表为空"),
        other => panic!("unexpected: {other:?}"),
    }
}
