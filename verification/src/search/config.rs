//! The configuration of one search request and its validation.
//!
//! `SearchConfig` holds everything a Find in Path request asks for: roots,
//! pattern, matching options, file filters, context size and the limits that
//! protect memory.

use std::path::PathBuf;

use vstd::prelude::*;

use crate::error::{unit_result_view, ErrorView, SearchError, SearchResult};
use crate::util::path::display_path;
use crate::util::text::{decimal, decimal_string, joined};

verus! {

/// `std::path::PathBuf` travels through the library unopened.
#[verifier::external_type_specification]
#[verifier::external_body]
pub struct ExPathBuf(PathBuf);

/// `PathBuf::clone` gives the same path.
pub assume_specification[ <PathBuf as Clone>::clone ](p: &PathBuf) -> (r: PathBuf)
    ensures
        r == *p,
;

/// Upper bound of `context_lines`.
pub const MAX_CONTEXT_LINES: usize = 50;

/// Upper bound of `max_matches_per_file`.
pub const MAX_MATCHES_PER_FILE: usize = 100_000;

/// Upper bound of `max_total_matches`.
pub const MAX_TOTAL_MATCHES: usize = 1_000_000;

/// Default of `max_matches_per_file`.
pub const DEFAULT_MAX_MATCHES_PER_FILE: usize = 10_000;

/// Default of `max_total_matches`.
pub const DEFAULT_MAX_TOTAL_MATCHES: usize = 100_000;

/// One Find in Path request.
#[derive(Debug)]
pub struct SearchConfig {
    /// Root directories to search (several for a multi-module project).
    pub roots: Vec<PathBuf>,
    /// The pattern, literal or regular expression.
    pub pattern: String,
    /// Whether `pattern` is a regular expression; otherwise it is matched literally.
    pub is_regex: bool,
    /// Whether case matters.
    pub case_sensitive: bool,
    /// Whether only whole words match (`\b` on both sides).
    pub whole_words: bool,
    /// Globs of the files to search (such as `*.kt`); empty means all files.
    pub include_globs: Vec<String>,
    /// Globs of the files to leave out (such as `*/build/*`).
    pub exclude_globs: Vec<String>,
    /// Lines of context before and after each match; 0 means none.
    pub context_lines: usize,
    /// Most matches kept from one file.
    pub max_matches_per_file: usize,
    /// Most matches kept from the whole search.
    pub max_total_matches: usize,
    /// Whether hidden files are searched.
    pub search_hidden: bool,
    /// Leave out matches on comment lines (`//`, `#`, `/*`, `*`, `<!--`, `--`).
    pub skip_comments: bool,
    /// Leave out matches on import lines (`import`, `#include`, `include`, `require`, `using`, `from`).
    pub skip_imports: bool,
    /// Leave out matches on package lines.
    pub skip_packages: bool,
}

/// Two configurations ask for the same search.
pub open spec fn same_config(a: SearchConfig, b: SearchConfig) -> bool {
    &&& a.roots@ == b.roots@
    &&& a.pattern@ == b.pattern@
    &&& a.is_regex == b.is_regex
    &&& a.case_sensitive == b.case_sensitive
    &&& a.whole_words == b.whole_words
    &&& a.include_globs@ == b.include_globs@
    &&& a.exclude_globs@ == b.exclude_globs@
    &&& a.context_lines == b.context_lines
    &&& a.max_matches_per_file == b.max_matches_per_file
    &&& a.max_total_matches == b.max_total_matches
    &&& a.search_hidden == b.search_hidden
    &&& a.skip_comments == b.skip_comments
    &&& a.skip_imports == b.skip_imports
    &&& a.skip_packages == b.skip_packages
}

impl Clone for SearchConfig {
    /// A copy of every setting.
    fn clone(&self) -> (c: Self)
        ensures
            same_config(c, *self),
    {
        SearchConfig {
            roots: self.roots.clone(),
            pattern: self.pattern.clone(),
            is_regex: self.is_regex,
            case_sensitive: self.case_sensitive,
            whole_words: self.whole_words,
            include_globs: self.include_globs.clone(),
            exclude_globs: self.exclude_globs.clone(),
            context_lines: self.context_lines,
            max_matches_per_file: self.max_matches_per_file,
            max_total_matches: self.max_total_matches,
            search_hidden: self.search_hidden,
            skip_comments: self.skip_comments,
            skip_imports: self.skip_imports,
            skip_packages: self.skip_packages,
        }
    }
}

// ---------------------------------------------------------------------------
// Regular expressions
// ---------------------------------------------------------------------------

/// The characters that `regex::escape` escapes (`regex_syntax::is_meta_character`).
pub open spec fn is_meta_character(c: char) -> bool {
    ||| c == '\\'
    ||| c == '.'
    ||| c == '+'
    ||| c == '*'
    ||| c == '?'
    ||| c == '('
    ||| c == ')'
    ||| c == '|'
    ||| c == '['
    ||| c == ']'
    ||| c == '{'
    ||| c == '}'
    ||| c == '^'
    ||| c == '$'
    ||| c == '#'
    ||| c == '&'
    ||| c == '-'
    ||| c == '~'
}

/// `text` with a backslash before each meta character.
pub open spec fn spec_escape(text: Seq<char>) -> Seq<char>
    decreases text.len(),
{
    if text.len() == 0 {
        Seq::empty()
    } else {
        let rest = spec_escape(text.drop_last());
        let c = text.last();
        if is_meta_character(c) {
            rest.push('\\').push(c)
        } else {
            rest.push(c)
        }
    }
}

/// The message of the error that `regex::Regex::new` gives for `pattern`, or
/// `None` where the pattern compiles.
pub uninterp spec fn regex_parse_error(pattern: Seq<char>) -> Option<Seq<char>>;

/// `regex::escape`: a backslash before each character of
/// `regex_syntax::is_meta_character`, every other character kept (as its source reads).
#[verifier::external_body]
fn regex_escape(text: &str) -> (r: String)
    ensures
        r@ == spec_escape(text@),
{
    regex::escape(text)
}

/// `regex::Regex::new`, reduced to the message of its error. Whether a pattern
/// compiles, and the message, depend on the pattern alone.
#[verifier::external_body]
fn regex_check(pattern: &str) -> (r: Option<String>)
    ensures
        match r {
            None => regex_parse_error(pattern@) is None,
            Some(m) => regex_parse_error(pattern@) == Some(m@),
        },
{
    match regex::Regex::new(pattern) {
        Ok(_) => None,
        Err(e) => Some(e.to_string()),
    }
}

// ---------------------------------------------------------------------------
// Disk
// ---------------------------------------------------------------------------

/// `Path::exists` on a root. What it returns depends on the disk.
#[verifier::external_body]
fn root_exists(root: &PathBuf) -> bool {
    root.exists()
}

/// The disk's answer for one root, with the root it was asked of.
struct RootProbe {
    found: bool,
    root: Ghost<PathBuf>,
}

/// Asks the disk whether `root` exists.
fn probe_root(root: &PathBuf) -> (r: RootProbe)
    ensures
        r.root@ == *root,
{
    RootProbe { found: root_exists(root), root: Ghost(*root) }
}


// ---------------------------------------------------------------------------
// Validation
// ---------------------------------------------------------------------------

/// Message of an empty pattern.
pub open spec fn empty_pattern_message() -> Seq<char> {
    "搜索模式为空"@
}

/// Message of an empty root list.
pub open spec fn no_roots_message() -> Seq<char> {
    "根目录列表为空"@
}

/// Message of a root that does not exist, given its displayed form.
pub open spec fn missing_root_message(root: Seq<char>) -> Seq<char> {
    "根目录不存在: "@ + root
}

/// Message of a regular expression that does not compile, given the compiler's message.
pub open spec fn bad_regex_message(err: Seq<char>) -> Seq<char> {
    "正则表达式无效: "@ + err
}

/// Message of a limit exceeded by a setting.
pub open spec fn limit_message(name: Seq<char>, limit: usize, actual: usize) -> Seq<char> {
    name + " 超过上限 "@ + decimal(limit as nat) + " (实际 "@ + decimal(actual as nat) + ")"@
}

/// What validation of `cfg` reports, given the displayed form of the first
/// root found missing on disk, if one was. The checks come in this order:
/// pattern, roots, roots on disk, regular expression, then the three limits.
pub open spec fn spec_validation(cfg: SearchConfig, missing_root: Option<Seq<char>>) -> Result<(), ErrorView> {
    if cfg.pattern@.len() == 0 {
        Err(ErrorView::InvalidPattern(empty_pattern_message()))
    } else if cfg.roots.len() == 0 {
        Err(ErrorView::InvalidRoot(no_roots_message()))
    } else if missing_root is Some {
        Err(ErrorView::InvalidRoot(missing_root_message(missing_root->0)))
    } else if cfg.is_regex && regex_parse_error(cfg.pattern@) is Some {
        Err(ErrorView::RegexCompile(bad_regex_message(regex_parse_error(cfg.pattern@)->0)))
    } else if cfg.context_lines > MAX_CONTEXT_LINES {
        Err(ErrorView::InvalidPattern(limit_message("context_lines"@, MAX_CONTEXT_LINES, cfg.context_lines)))
    } else if cfg.max_matches_per_file > MAX_MATCHES_PER_FILE {
        Err(ErrorView::InvalidPattern(limit_message("max_matches_per_file"@, MAX_MATCHES_PER_FILE, cfg.max_matches_per_file)))
    } else if cfg.max_total_matches > MAX_TOTAL_MATCHES {
        Err(ErrorView::InvalidPattern(limit_message("max_total_matches"@, MAX_TOTAL_MATCHES, cfg.max_total_matches)))
    } else {
        Ok(())
    }
}

/// `r` is what validating `cfg` can report, whatever the disk held: some root
/// may have been found missing, provided there were roots to look at.
pub open spec fn is_validation_outcome(cfg: SearchConfig, r: Result<(), ErrorView>) -> bool {
    exists|missing: Option<Seq<char>>|
        (cfg.roots.len() == 0 ==> missing is None) && #[trigger] spec_validation(cfg, missing) == r
}

/// Every root among the first `n` that has an answer in `probes` was found.
pub open spec fn all_found(probes: Seq<bool>, n: int) -> bool {
    forall|j: int| 0 <= j < n && j < probes.len() ==> #[trigger] probes[j]
}

/// `r` is the first of the first `n` roots whose probe in `probes` says
/// missing, or none where every probed one among them was found.
pub open spec fn is_first_missing(probes: Seq<bool>, n: int, r: Option<usize>) -> bool {
    match r {
        Some(k) => {
            &&& k < n
            &&& k < probes.len()
            &&& !probes[k as int]
            &&& forall|j: int| 0 <= j < k ==> #[trigger] probes[j]
        },
        None => all_found(probes, n),
    }
}

/// The setting passes every check that does not look at the disk.
pub open spec fn passes_static_checks(cfg: SearchConfig) -> bool {
    spec_validation(cfg, None) == Ok::<(), ErrorView>(())
}

/// The regular expression that the matcher compiles for `cfg`: the pattern
/// (escaped unless it is a regular expression), between `\b` for whole
/// words, after `(?i)` unless case matters.
pub open spec fn spec_regex_pattern(cfg: SearchConfig) -> Seq<char> {
    let core = if cfg.is_regex { cfg.pattern@ } else { spec_escape(cfg.pattern@) };
    let words = if cfg.whole_words { "\\b"@ + core + "\\b"@ } else { core };
    if cfg.case_sensitive { words } else { "(?i)"@ + words }
}

/// The message of a setting above its limit.
fn limit_error(name: &str, limit: usize, actual: usize) -> (m: String)
    ensures
        m@ == limit_message(name@, limit, actual),
{
    let m = joined(name, " 超过上限 ");
    let m = joined(m.as_str(), decimal_string(limit as u64).as_str());
    let m = joined(m.as_str(), " (实际 ");
    let m = joined(m.as_str(), decimal_string(actual as u64).as_str());
    joined(m.as_str(), ")")
}

/// `c` is the configuration of `roots` and `pattern` with the defaults:
/// literal, case-insensitive, no filters, no context, 10 000 matches per file
/// and 100 000 in all, hidden files left out, no line-kind filter.
pub open spec fn is_default_config(c: SearchConfig, roots: Vec<PathBuf>, pattern: String) -> bool {
    &&& c.roots == roots
    &&& c.pattern == pattern
    &&& !c.is_regex
    &&& !c.case_sensitive
    &&& !c.whole_words
    &&& c.include_globs@.len() == 0
    &&& c.exclude_globs@.len() == 0
    &&& c.context_lines == 0
    &&& c.max_matches_per_file == DEFAULT_MAX_MATCHES_PER_FILE
    &&& c.max_total_matches == DEFAULT_MAX_TOTAL_MATCHES
    &&& !c.search_hidden
    &&& !c.skip_comments
    &&& !c.skip_imports
    &&& !c.skip_packages
}

/// The position of the first of the first `count` roots whose probe in
/// `probes` says it is missing.
pub fn first_missing(probes: &Vec<bool>, count: usize) -> (r: Option<usize>)
    ensures
        is_first_missing(probes@, count as int, r),
{
    let mut j: usize = 0;
    while j < count && j < probes.len()
        invariant
            forall|k: int| 0 <= k < j ==> #[trigger] probes@[k],
        decreases count - j,
    {
        if !probes[j] {
            return Some(j);
        }
        j = j + 1;
    }
    proof {
        assert forall|k: int| 0 <= k < count && k < probes@.len() implies #[trigger] probes@[k] by {
            assert(k < j);
        }
    }
    None
}

impl SearchConfig {
    /// A configuration with conservative defaults: literal, case-insensitive,
    /// no filters, no context, 10 000 matches per file and 100 000 in all.
    pub fn new(roots: Vec<PathBuf>, pattern: String) -> (c: Self)
        ensures
            is_default_config(c, roots, pattern),
    {
        SearchConfig {
            roots,
            pattern,
            is_regex: false,
            case_sensitive: false,
            whole_words: false,
            include_globs: Vec::new(),
            exclude_globs: Vec::new(),
            context_lines: 0,
            max_matches_per_file: DEFAULT_MAX_MATCHES_PER_FILE,
            max_total_matches: DEFAULT_MAX_TOTAL_MATCHES,
            search_hidden: false,
            skip_comments: false,
            skip_imports: false,
            skip_packages: false,
        }
    }

    /// Probes the roots on disk, in order, up to the first one that is not
    /// there: entry `i` tells whether root `i` exists.
    fn probe_roots(&self) -> (p: (Vec<bool>, Ghost<Seq<PathBuf>>))
        ensures
            p.0@.len() <= self.roots@.len(),
            p.1@ == self.roots@.take(p.0@.len() as int),
            forall|j: int| 0 <= j < p.0@.len() - 1 ==> #[trigger] p.0@[j],
            p.0@.len() < self.roots@.len() ==> p.0@.len() > 0 && !p.0@.last(),
    {
        let mut probes: Vec<bool> = Vec::new();
        let ghost mut asked: Seq<PathBuf> = Seq::empty();
        let mut i: usize = 0;
        while i < self.roots.len()
            invariant
                i <= self.roots@.len(),
                probes@.len() == i,
                asked == self.roots@.take(i as int),
                forall|j: int| 0 <= j < i ==> #[trigger] probes@[j],
            decreases self.roots.len() - i,
        {
            let probe = probe_root(&self.roots[i]);
            proof {
                asked = asked.push(probe.root@);
                assert(asked =~= self.roots@.take(i + 1));
            }
            probes.push(probe.found);
            if !probe.found {
                return (probes, Ghost(asked));
            }
            i = i + 1;
        }
        (probes, Ghost(asked))
    }

    /// Validation given the disk's answers: `probes[i]` tells whether root
    /// `i` exists (a root without an answer counts as present). The first root
    /// found missing is reported, by its displayed form.
    pub fn validate_with_probes(&self, probes: Vec<bool>) -> (r: SearchResult<()>)
        ensures
            exists|m: Option<Seq<char>>|
                (m is None <==> all_found(probes@, self.roots@.len() as int)) && #[trigger] spec_validation(
                    *self,
                    m,
                ) == unit_result_view(r),
    {
        let missing = match first_missing(&probes, self.roots.len()) {
            Some(k) => Some(display_path(&self.roots[k])),
            None => None,
        };
        let ghost probe = match &missing {
            Some(m) => Some(m@),
            None => None::<Seq<char>>,
        };
        let r = self.validate_probed(missing);
        assert(spec_validation(*self, probe) == unit_result_view(r));
        r
    }

    /// Validation once the disk has been probed: `missing_root` is the
    /// displayed form of the first root found missing, if one was.
    pub fn validate_probed(&self, missing_root: Option<String>) -> (r: SearchResult<()>)
        ensures
            unit_result_view(r) == spec_validation(
                *self,
                match missing_root {
                    Some(m) => Some(m@),
                    None => None,
                },
            ),
    {
        if self.pattern.as_str().is_empty() {
            return Err(SearchError::InvalidPattern(String::from_str("搜索模式为空")));
        }
        if self.roots.len() == 0 {
            return Err(SearchError::InvalidRoot(String::from_str("根目录列表为空")));
        }
        if let Some(root) = missing_root {
            return Err(SearchError::InvalidRoot(joined("根目录不存在: ", root.as_str())));
        }
        if self.is_regex {
            if let Some(e) = regex_check(self.pattern.as_str()) {
                return Err(SearchError::RegexCompile(joined("正则表达式无效: ", e.as_str())));
            }
        }
        if self.context_lines > MAX_CONTEXT_LINES {
            return Err(SearchError::InvalidPattern(
                limit_error("context_lines", MAX_CONTEXT_LINES, self.context_lines),
            ));
        }
        if self.max_matches_per_file > MAX_MATCHES_PER_FILE {
            return Err(SearchError::InvalidPattern(
                limit_error("max_matches_per_file", MAX_MATCHES_PER_FILE, self.max_matches_per_file),
            ));
        }
        if self.max_total_matches > MAX_TOTAL_MATCHES {
            return Err(SearchError::InvalidPattern(
                limit_error("max_total_matches", MAX_TOTAL_MATCHES, self.max_total_matches),
            ));
        }
        Ok(())
    }

    /// Checks the configuration: a pattern, roots that exist, a regular
    /// expression that compiles (in regex mode), and the three limits.
    /// The disk is probed only when the pattern and the root list are not empty.
    pub fn validate(&self) -> (r: SearchResult<()>)
        ensures
            is_validation_outcome(*self, unit_result_view(r)),
    {
        let probes = if self.pattern.as_str().is_empty() || self.roots.len() == 0 {
            Vec::new()
        } else {
            self.probe_roots().0
        };
        self.validate_with_probes(probes)
    }

    /// The regular expression to compile: the pattern (escaped in literal
    /// mode), between `\b` for whole words, after `(?i)` unless case matters.
    pub fn build_regex_pattern(&self) -> (r: String)
        ensures
            r@ == spec_regex_pattern(*self),
    {
        let core = if self.is_regex {
            self.pattern.clone()
        } else {
            regex_escape(self.pattern.as_str())
        };
        let with_words = if self.whole_words {
            let s = joined("\\b", core.as_str());
            joined(s.as_str(), "\\b")
        } else {
            core
        };
        if self.case_sensitive {
            with_words
        } else {
            joined("(?i)", with_words.as_str())
        }
    }
}


// ---------------------------------------------------------------------------
// Builder
// ---------------------------------------------------------------------------

/// A configuration assembled step by step, validated by `build`.
#[derive(Default)]
pub struct SearchConfigBuilder {
    roots: Vec<PathBuf>,
    pattern: String,
    is_regex: bool,
    case_sensitive: bool,
    whole_words: bool,
    include_globs: Vec<String>,
    exclude_globs: Vec<String>,
    context_lines: usize,
    max_matches_per_file: Option<usize>,
    max_total_matches: Option<usize>,
    search_hidden: bool,
    skip_comments: bool,
    skip_imports: bool,
    skip_packages: bool,
}

/// What a builder holds so far; an unset limit is `None`.
pub struct BuilderView {
    pub roots: Vec<PathBuf>,
    pub pattern: String,
    pub is_regex: bool,
    pub case_sensitive: bool,
    pub whole_words: bool,
    pub include_globs: Vec<String>,
    pub exclude_globs: Vec<String>,
    pub context_lines: usize,
    pub max_matches_per_file: Option<usize>,
    pub max_total_matches: Option<usize>,
    pub search_hidden: bool,
    pub skip_comments: bool,
    pub skip_imports: bool,
    pub skip_packages: bool,
}

impl View for SearchConfigBuilder {
    type V = BuilderView;

    closed spec fn view(&self) -> BuilderView {
        BuilderView {
            roots: self.roots,
            pattern: self.pattern,
            is_regex: self.is_regex,
            case_sensitive: self.case_sensitive,
            whole_words: self.whole_words,
            include_globs: self.include_globs,
            exclude_globs: self.exclude_globs,
            context_lines: self.context_lines,
            max_matches_per_file: self.max_matches_per_file,
            max_total_matches: self.max_total_matches,
            search_hidden: self.search_hidden,
            skip_comments: self.skip_comments,
            skip_imports: self.skip_imports,
            skip_packages: self.skip_packages,
        }
    }
}

/// The configuration a builder stands for: its settings, with the default
/// limits where none was set.
pub open spec fn spec_built_config(b: BuilderView) -> SearchConfig {
    SearchConfig {
        roots: b.roots,
        pattern: b.pattern,
        is_regex: b.is_regex,
        case_sensitive: b.case_sensitive,
        whole_words: b.whole_words,
        include_globs: b.include_globs,
        exclude_globs: b.exclude_globs,
        context_lines: b.context_lines,
        max_matches_per_file: match b.max_matches_per_file {
            Some(m) => m,
            None => DEFAULT_MAX_MATCHES_PER_FILE,
        },
        max_total_matches: match b.max_total_matches {
            Some(m) => m,
            None => DEFAULT_MAX_TOTAL_MATCHES,
        },
        search_hidden: b.search_hidden,
        skip_comments: b.skip_comments,
        skip_imports: b.skip_imports,
        skip_packages: b.skip_packages,
    }
}

impl SearchConfigBuilder {
    /// An empty builder: no roots, empty pattern, every flag off, no context,
    /// limits unset.
    pub fn new() -> (b: Self)
        ensures
            b@.roots@.len() == 0,
            b@.pattern@.len() == 0,
            !b@.is_regex,
            !b@.case_sensitive,
            !b@.whole_words,
            b@.include_globs@.len() == 0,
            b@.exclude_globs@.len() == 0,
            b@.context_lines == 0,
            b@.max_matches_per_file is None,
            b@.max_total_matches is None,
            !b@.search_hidden,
            !b@.skip_comments,
            !b@.skip_imports,
            !b@.skip_packages,
    {
        SearchConfigBuilder {
            roots: Vec::new(),
            pattern: String::new(),
            is_regex: false,
            case_sensitive: false,
            whole_words: false,
            include_globs: Vec::new(),
            exclude_globs: Vec::new(),
            context_lines: 0,
            max_matches_per_file: None,
            max_total_matches: None,
            search_hidden: false,
            skip_comments: false,
            skip_imports: false,
            skip_packages: false,
        }
    }

    /// Sets the roots.
    pub fn roots(self, roots: Vec<PathBuf>) -> (b: Self)
        ensures
            b@ == (BuilderView { roots: roots, ..self@ }),
    {
        let mut b = self;
        b.roots = roots;
        b
    }

    /// Sets the pattern.
    pub fn pattern(self, pattern: &str) -> (b: Self)
        ensures
            b@.pattern@ == pattern@,
            b@ == (BuilderView { pattern: b@.pattern, ..self@ }),
    {
        let mut b = self;
        b.pattern = String::from_str(pattern);
        b
    }

    /// Sets regular-expression mode.
    pub fn regex(self, is_regex: bool) -> (b: Self)
        ensures
            b@ == (BuilderView { is_regex: is_regex, ..self@ }),
    {
        let mut b = self;
        b.is_regex = is_regex;
        b
    }

    /// Sets case sensitivity.
    pub fn case_sensitive(self, case_sensitive: bool) -> (b: Self)
        ensures
            b@ == (BuilderView { case_sensitive: case_sensitive, ..self@ }),
    {
        let mut b = self;
        b.case_sensitive = case_sensitive;
        b
    }

    /// Sets whole-word matching.
    pub fn whole_words(self, whole_words: bool) -> (b: Self)
        ensures
            b@ == (BuilderView { whole_words: whole_words, ..self@ }),
    {
        let mut b = self;
        b.whole_words = whole_words;
        b
    }

    /// Sets the include globs.
    pub fn include_globs(self, globs: Vec<String>) -> (b: Self)
        ensures
            b@ == (BuilderView { include_globs: globs, ..self@ }),
    {
        let mut b = self;
        b.include_globs = globs;
        b
    }

    /// Sets the exclude globs.
    pub fn exclude_globs(self, globs: Vec<String>) -> (b: Self)
        ensures
            b@ == (BuilderView { exclude_globs: globs, ..self@ }),
    {
        let mut b = self;
        b.exclude_globs = globs;
        b
    }

    /// Sets the number of context lines.
    pub fn context_lines(self, lines: usize) -> (b: Self)
        ensures
            b@ == (BuilderView { context_lines: lines, ..self@ }),
    {
        let mut b = self;
        b.context_lines = lines;
        b
    }

    /// Sets the limit of matches per file.
    pub fn max_matches_per_file(self, max: usize) -> (b: Self)
        ensures
            b@ == (BuilderView { max_matches_per_file: Some(max), ..self@ }),
    {
        let mut b = self;
        b.max_matches_per_file = Some(max);
        b
    }

    /// Sets the limit of matches in all.
    pub fn max_total_matches(self, max: usize) -> (b: Self)
        ensures
            b@ == (BuilderView { max_total_matches: Some(max), ..self@ }),
    {
        let mut b = self;
        b.max_total_matches = Some(max);
        b
    }

    /// Sets whether hidden files are searched.
    pub fn search_hidden(self, search: bool) -> (b: Self)
        ensures
            b@ == (BuilderView { search_hidden: search, ..self@ }),
    {
        let mut b = self;
        b.search_hidden = search;
        b
    }

    /// Sets whether comment lines are left out.
    pub fn skip_comments(self, skip: bool) -> (b: Self)
        ensures
            b@ == (BuilderView { skip_comments: skip, ..self@ }),
    {
        let mut b = self;
        b.skip_comments = skip;
        b
    }

    /// Sets whether import lines are left out.
    pub fn skip_imports(self, skip: bool) -> (b: Self)
        ensures
            b@ == (BuilderView { skip_imports: skip, ..self@ }),
    {
        let mut b = self;
        b.skip_imports = skip;
        b
    }

    /// Sets whether package lines are left out.
    pub fn skip_packages(self, skip: bool) -> (b: Self)
        ensures
            b@ == (BuilderView { skip_packages: skip, ..self@ }),
    {
        let mut b = self;
        b.skip_packages = skip;
        b
    }

    /// The configuration, with the default limits where none was set, once it
    /// has passed `SearchConfig::validate`.
    pub fn build(self) -> (r: SearchResult<SearchConfig>)
        ensures
            match r {
                Ok(c) => c == spec_built_config(self@) && is_validation_outcome(c, Ok(())),
                Err(e) => is_validation_outcome(spec_built_config(self@), Err(e@)),
            },
    {
        let max_per_file = match self.max_matches_per_file {
            Some(m) => m,
            None => DEFAULT_MAX_MATCHES_PER_FILE,
        };
        let max_total = match self.max_total_matches {
            Some(m) => m,
            None => DEFAULT_MAX_TOTAL_MATCHES,
        };
        let config = SearchConfig {
            roots: self.roots,
            pattern: self.pattern,
            is_regex: self.is_regex,
            case_sensitive: self.case_sensitive,
            whole_words: self.whole_words,
            include_globs: self.include_globs,
            exclude_globs: self.exclude_globs,
            context_lines: self.context_lines,
            max_matches_per_file: max_per_file,
            max_total_matches: max_total,
            search_hidden: self.search_hidden,
            skip_comments: self.skip_comments,
            skip_imports: self.skip_imports,
            skip_packages: self.skip_packages,
        };
        match config.validate() {
            Ok(()) => Ok(config),
            Err(e) => Err(e),
        }
    }
}

/// A builder on which only the roots and the pattern were set stands for the
/// configuration that `SearchConfig::new` makes of them: both use the same
/// defaults.
pub proof fn law_builder_defaults_match_new(b: BuilderView)
    requires
        !b.is_regex,
        !b.case_sensitive,
        !b.whole_words,
        b.include_globs@.len() == 0,
        b.exclude_globs@.len() == 0,
        b.context_lines == 0,
        b.max_matches_per_file is None,
        b.max_total_matches is None,
        !b.search_hidden,
        !b.skip_comments,
        !b.skip_imports,
        !b.skip_packages,
    ensures
        is_default_config(spec_built_config(b), b.roots, b.pattern),
{
}

} // verus!
