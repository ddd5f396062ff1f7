//! Matching the lines of one file.
//!
//! `grep-regex` compiles the pattern and `grep-searcher` finds the matching
//! lines; every line it reports goes through `MatchCollector::matched`, which
//! applies cancellation, the per-file limit, the line-kind filters and context
//! extraction.

use std::path::PathBuf;
use std::sync::atomic::{AtomicBool, Ordering};
use std::sync::Arc;

use grep_regex::RegexMatcher;
use grep_searcher::Searcher;
use vstd::prelude::*;

use crate::error::{io_error_other, io_error_text, ErrorView, SearchError, SearchResult};
use crate::search::config::{spec_regex_pattern, SearchConfig};
use crate::search::context::{spec_extract, strings_view, ContextExtractor, MAX_CONTEXT_FILE_SIZE};
use crate::search::line_kind::{classify_line, spec_classify_line, LineKind};
use crate::util::path::display_path;
use crate::util::text::{decode_lossy, joined, utf8_lossy};

verus! {

/// A compiled `grep-regex` matcher.
#[verifier::external_type_specification]
#[verifier::external_body]
pub struct ExRegexMatcher(RegexMatcher);

/// A `grep-searcher` line searcher.
#[verifier::external_type_specification]
#[verifier::external_body]
pub struct ExSearcher(Searcher);

/// One match.
#[derive(Debug, Clone)]
pub struct SearchMatch {
    /// The file the match is in.
    pub file_path: PathBuf,
    /// The line number, counted from 1.
    pub line_number: usize,
    /// The byte offset in the line at which the match starts, counted from 0.
    pub column: usize,
    /// The whole matched line, as the searcher gave it (with its terminator).
    pub matched_text: String,
    /// The lines before the match.
    pub context_before: Vec<String>,
    /// The lines after the match.
    pub context_after: Vec<String>,
    /// What kind of line matched.
    pub line_kind: LineKind,
}

// ---------------------------------------------------------------------------
// Compiling
// ---------------------------------------------------------------------------

/// The message of the error that `grep_regex::RegexMatcher::new` gives for
/// `pattern`, or `None` where it compiles.
pub uninterp spec fn regex_matcher_error(pattern: Seq<char>) -> Option<Seq<char>>;

/// `grep_regex::RegexMatcher::new`, its error reduced to its message. Whether a
/// pattern compiles, and the message, depend on the pattern alone.
#[verifier::external_body]
fn compile_matcher(pattern: &str) -> (r: Result<RegexMatcher, String>)
    ensures
        match r {
            Ok(_) => regex_matcher_error(pattern@) is None,
            Err(m) => regex_matcher_error(pattern@) == Some(m@),
        },
{
    RegexMatcher::new(pattern).map_err(|e| e.to_string())
}

/// The message of a pattern the matcher cannot compile.
pub open spec fn compile_error_message(pattern: Seq<char>, err: Seq<char>) -> Seq<char> {
    "正则编译失败 '"@ + pattern + "': "@ + err
}

// ---------------------------------------------------------------------------
// Searching
// ---------------------------------------------------------------------------

/// `grep_searcher::SearcherBuilder`: a searcher with the default
/// configuration (line numbers on, no context) but for binary detection,
/// which quits at a NUL byte, so that binary files are not searched.
#[verifier::external_body]
fn new_searcher() -> Searcher {
    grep_searcher::SearcherBuilder::new().binary_detection(grep_searcher::BinaryDetection::quit(0u8)).build()
}

/// Where `grep_matcher::Matcher::find` of a `grep_regex::RegexMatcher`
/// compiled from `pattern` finds the first match in `line`: the byte offset at
/// which it starts, or `None` without a match (a `RegexMatcher` has no
/// error to report). It depends on the pattern and the bytes alone.
pub uninterp spec fn first_match_start(pattern: Seq<char>, line: Seq<u8>) -> Option<usize>;

/// `grep_matcher::Matcher::find` of the matcher's compiled pattern on `line`,
/// reduced to the offset at which the match starts.
#[verifier::external_body]
fn find_start(matcher: &Matcher, line: &[u8]) -> (r: Option<usize>)
    ensures
        r == first_match_start(matcher.spec_pattern(), line@),
{
    match grep_matcher::Matcher::find(&matcher.regex_matcher, line) {
        Ok(Some(m)) => Some(m.start()),
        Ok(None) => None,
        Err(_) => None,
    }
}

/// The matching lines that a `grep_searcher::Searcher` from `new_searcher` reports for
/// `haystack` with a `grep_regex::RegexMatcher` compiled from `pattern`, in
/// the order it reports them: each as its line number and its bytes (with
/// the line terminator). They depend on the pattern and the bytes alone.
pub uninterp spec fn searcher_reports(pattern: Seq<char>, haystack: Seq<u8>) -> Seq<(u64, Seq<u8>)>;

/// No reported line holds a NUL byte: the searcher quits before reporting one.
pub open spec fn text_lines(reports: Seq<(u64, Seq<u8>)>) -> bool {
    forall|i: int| 0 <= i < reports.len() ==> !(#[trigger] reports[i]).1.contains(0u8)
}

/// The reported lines come in file order, each once: their numbers, counted
/// from 1, strictly increase, and none passes the length of a text of
/// `len` bytes (each line holds at least one byte).
pub open spec fn in_line_order(reports: Seq<(u64, Seq<u8>)>, len: nat) -> bool {
    &&& forall|i: int| 0 <= i < reports.len() ==> 1 <= (#[trigger] reports[i]).0 <= len
    &&& forall|i: int, j: int| 0 <= i < j < reports.len() ==> (#[trigger] reports[i]).0 < (#[trigger] reports[j]).0
}

/// The lines handed over, `seen`, are those handed over before, `before`,
/// then a prefix of `reports`: all of them unless the collector stopped. The
/// reports hold no NUL byte.
pub open spec fn handed_prefix(
    seen: Seq<(u64, Seq<u8>)>,
    stopped: bool,
    before: Seq<(u64, Seq<u8>)>,
    reports: Seq<(u64, Seq<u8>)>,
    len: nat,
) -> bool {
    &&& text_lines(reports)
    &&& in_line_order(reports, len)
    &&& exists|k: int|
        0 <= k <= reports.len() && #[trigger] reports.take(k) == seen.skip(before.len() as int)
            && seen == before + reports.take(k) && (k < reports.len() ==> stopped)
}

/// `Searcher::search_slice`, on a searcher from `new_searcher`, with a
/// `sinks::Bytes` sink whose closure hands each matching line to
/// `collector.matched`. The searcher calls the sink
/// once per matching line, in file order with the line's number (counted
/// from 1, as line numbers are on by default), and stops at the first call that
/// returns `false` (`grep_searcher::Sink::matched`): the lines handed over
/// are a prefix of `searcher_reports`, the whole of it unless the collector
/// stopped; none of them holds a NUL byte, since the searcher quits at
/// one (`BinaryDetection::quit`). The collector changes only through `matched`, so its settings
/// stay and what `matched` keeps true of a collector that has not stopped
/// stays true.
#[verifier::external_body]
fn search_slice_into(
    searcher: &mut Searcher,
    matcher: &Matcher,
    haystack: &[u8],
    collector: &mut MatchCollector<'_>,
) -> (r: Result<(), std::io::Error>)
    ensures
        final(collector).same_settings(*old(collector)),
        old(collector).collected() && !old(collector).stopped@ ==> final(collector).collected(),
        handed_prefix(
            final(collector).seen@,
            final(collector).stopped@,
            old(collector).seen@,
            searcher_reports(matcher.spec_pattern(), haystack@),
            haystack@.len(),
        ),
{
    searcher.search_slice(
        &matcher.regex_matcher,
        haystack,
        grep_searcher::sinks::Bytes(|line_number, bytes| Ok(collector.matched(line_number, bytes))),
    )
}

/// Whether a search was asked to stop.
pub fn is_cancelled(flag: &AtomicBool) -> bool {
    flag.load(Ordering::Relaxed)
}

/// Asks a search to stop.
pub fn raise_flag(flag: &AtomicBool) {
    flag.store(true, Ordering::Relaxed);
}

/// The line-kind filters leave a line of kind `k` out.
pub open spec fn is_skipped(k: LineKind, skip_comments: bool, skip_imports: bool, skip_packages: bool) -> bool {
    ||| (skip_comments && k == LineKind::Comment)
    ||| (skip_imports && k == LineKind::Import)
    ||| (skip_packages && k == LineKind::Package)
}

/// The column of a match on a line: the byte offset at which the pattern's
/// first match on the line starts (0 should the line hold none).
pub open spec fn match_column(pattern: Seq<char>, line: Seq<u8>) -> usize {
    match first_match_start(pattern, line) {
        Some(start) => start,
        None => 0,
    }
}

/// `m` is the match that a matching line with number `line_number` and bytes
/// `bytes` gives in file `path`, for the pattern `pattern`, with context
/// drawn from `text`.
pub open spec fn is_match_of(
    m: SearchMatch,
    path: PathBuf,
    line_number: u64,
    bytes: Seq<u8>,
    text: Option<Seq<u8>>,
    n: usize,
    pattern: Seq<char>,
) -> bool {
    &&& m.file_path == path
    &&& m.line_number == line_number as usize
    &&& m.column == match_column(pattern, bytes)
    &&& m.matched_text@ == utf8_lossy(bytes)
    &&& m.line_kind == spec_classify_line(utf8_lossy(bytes))
    &&& (strings_view(m.context_before@), strings_view(m.context_after@)) == spec_extract(
        text,
        line_number as usize,
        n,
    )
}

/// The text a context extractor serves, if there is one.
pub open spec fn context_text(e: Option<ContextExtractor>) -> Option<Seq<u8>> {
    match e {
        Some(x) => x.text(),
        None => None,
    }
}

/// The text that context lines come from when a file with bytes `haystack` is
/// searched with `n` lines of context: none without context or above the size limit.
pub open spec fn context_source(n: usize, haystack: Seq<u8>) -> Option<Seq<u8>> {
    if n > 0 && haystack.len() <= MAX_CONTEXT_FILE_SIZE {
        Some(haystack)
    } else {
        None
    }
}

/// The line-kind filters keep the reported line `r`.
pub open spec fn keeps_line(r: (u64, Seq<u8>), skip_comments: bool, skip_imports: bool, skip_packages: bool) -> bool {
    !is_skipped(spec_classify_line(utf8_lossy(r.1)), skip_comments, skip_imports, skip_packages)
}

/// The reported lines that the line-kind filters keep, in order.
pub open spec fn kept_reports(
    reports: Seq<(u64, Seq<u8>)>,
    skip_comments: bool,
    skip_imports: bool,
    skip_packages: bool,
) -> Seq<(u64, Seq<u8>)>
    decreases reports.len(),
{
    if reports.len() == 0 {
        Seq::empty()
    } else {
        let before = kept_reports(reports.drop_last(), skip_comments, skip_imports, skip_packages);
        if keeps_line(reports.last(), skip_comments, skip_imports, skip_packages) {
            before.push(reports.last())
        } else {
            before
        }
    }
}

/// `ms` are the matches of the reported lines `reports`, one for one and in
/// order, in file `path`, for the pattern `pattern`, with context drawn from `text`.
pub open spec fn matches_of_reports(
    ms: Seq<SearchMatch>,
    reports: Seq<(u64, Seq<u8>)>,
    path: PathBuf,
    text: Option<Seq<u8>>,
    n: usize,
    pattern: Seq<char>,
) -> bool {
    &&& ms.len() == reports.len()
    &&& forall|i: int|
        0 <= i < ms.len() ==> #[trigger] is_match_of(ms[i], path, reports[i].0, reports[i].1, text, n, pattern)
}

/// The first `max` of the reported lines that the filters keep.
pub open spec fn capped_kept(
    reports: Seq<(u64, Seq<u8>)>,
    max: usize,
    skip_comments: bool,
    skip_imports: bool,
    skip_packages: bool,
) -> Seq<(u64, Seq<u8>)> {
    let kept = kept_reports(reports, skip_comments, skip_imports, skip_packages);
    if kept.len() > max {
        kept.take(max as int)
    } else {
        kept
    }
}

/// Collects the matches of one file.
pub struct MatchCollector<'a> {
    pub file_path: PathBuf,
    pub matches: Vec<SearchMatch>,
    pub max_matches: usize,
    pub cancel_flag: Arc<AtomicBool>,
    pub context_extractor: Option<ContextExtractor<'a>>,
    pub context_lines: usize,
    pub skip_comments: bool,
    pub skip_imports: bool,
    pub skip_packages: bool,
    /// The matcher whose pattern gives each match's column.
    pub matcher: &'a Matcher,
    /// Whether a read of the cancellation flag found it raised.
    pub cancel_seen: bool,
    /// The lines handed to the collector so far.
    pub seen: Ghost<Seq<(u64, Seq<u8>)>>,
    /// Whether the collector has asked the searcher to stop.
    pub stopped: Ghost<bool>,
}

impl<'a> MatchCollector<'a> {
    /// The lines whose matches count: all lines handed over, but the one on
    /// which the collector stopped.
    pub open spec fn live_reports(&self) -> Seq<(u64, Seq<u8>)> {
        if self.stopped@ {
            self.seen@.drop_last()
        } else {
            self.seen@
        }
    }

    /// The collector holds the matches of the lines handed over that its
    /// filters keep, in order, at most `max_matches` of them; when it stopped
    /// without having read a raised cancellation flag, it holds exactly
    /// `max_matches` of them.
    pub open spec fn collected(&self) -> bool {
        &&& self.matches@.len() <= self.max_matches
        &&& self.stopped@ ==> self.seen@.len() > 0
        &&& self.stopped@ && !self.cancel_seen ==> self.matches@.len() == self.max_matches
        &&& matches_of_reports(
            self.matches@,
            kept_reports(self.live_reports(), self.skip_comments, self.skip_imports, self.skip_packages),
            self.file_path,
            context_text(self.context_extractor),
            self.context_lines,
            self.matcher.spec_pattern(),
        )
    }

    /// Everything but the collected matches is the same.
    pub open spec fn same_settings(&self, other: Self) -> bool {
        &&& self.file_path == other.file_path
        &&& self.max_matches == other.max_matches
        &&& self.cancel_flag == other.cancel_flag
        &&& context_text(self.context_extractor) == context_text(other.context_extractor)
        &&& self.context_lines == other.context_lines
        &&& self.skip_comments == other.skip_comments
        &&& self.skip_imports == other.skip_imports
        &&& self.skip_packages == other.skip_packages
        &&& self.matcher == other.matcher
    }

    /// Handles one matching line once the cancellation flag has been read:
    /// stops (`false`) when cancelled or when the file's limit is reached;
    /// otherwise keeps going (`true`), recording the match unless its line kind
    /// is filtered out.
    pub fn on_match(&mut self, cancelled: bool, line_number: u64, bytes: &[u8]) -> (go_on: bool)
        ensures
            final(self).same_settings(*old(self)),
            go_on == (!cancelled && old(self).matches@.len() < old(self).max_matches),
            final(self).seen@ == old(self).seen@.push((line_number, bytes@)),
            final(self).stopped@ == (old(self).stopped@ || !go_on),
            final(self).cancel_seen == (old(self).cancel_seen || cancelled),
            !go_on ==> final(self).matches@ == old(self).matches@,
            go_on ==> ({
                if !keeps_line((line_number, bytes@), old(self).skip_comments, old(self).skip_imports, old(self).skip_packages) {
                    final(self).matches@ == old(self).matches@
                } else {
                    &&& final(self).matches@.len() == old(self).matches@.len() + 1
                    &&& final(self).matches@.drop_last() == old(self).matches@
                    &&& is_match_of(
                        final(self).matches@.last(),
                        old(self).file_path,
                        line_number,
                        bytes@,
                        context_text(old(self).context_extractor),
                        old(self).context_lines,
                        old(self).matcher.spec_pattern(),
                    )
                }
            }),
            old(self).collected() && !old(self).stopped@ ==> final(self).collected(),
    {
        let ghost old_self = *self;
        proof {
            self.seen = Ghost(self.seen@.push((line_number, bytes@)));
        }
        if cancelled {
            self.cancel_seen = true;
        }
        if cancelled || self.matches.len() >= self.max_matches {
            proof {
                self.stopped = Ghost(true);
                lemma_live_after_stop(old_self.seen@, line_number, bytes@);
            }
            return false;
        }
        let matched_text = decode_lossy(bytes);
        let line_kind = classify_line(matched_text.as_str());
        let skipped = match line_kind {
            LineKind::Comment => self.skip_comments,
            LineKind::Import => self.skip_imports,
            LineKind::Package => self.skip_packages,
            LineKind::Code => false,
        };
        proof {
            lemma_kept_push(
                old_self.seen@,
                (line_number, bytes@),
                self.skip_comments,
                self.skip_imports,
                self.skip_packages,
            );
        }
        if skipped {
            return true;
        }
        let ln = #[verifier::truncate] (line_number as usize);
        let (context_before, context_after) = match &mut self.context_extractor {
            Some(extractor) => extractor.extract(ln, self.context_lines),
            None => {
                proof {
                    assert(strings_view(Seq::<String>::empty()) =~= Seq::<Seq<char>>::empty());
                }
                (Vec::new(), Vec::new())
            },
        };
        let column = match find_start(self.matcher, bytes) {
            Some(start) => start,
            None => 0,
        };
        let m = SearchMatch {
            file_path: self.file_path.clone(),
            line_number: ln,
            column,
            matched_text,
            context_before,
            context_after,
            line_kind,
        };
        let ghost old_matches = self.matches@;
        self.matches.push(m);
        proof {
            assert(is_match_of(
                self.matches@.last(),
                self.file_path,
                line_number,
                bytes@,
                context_text(self.context_extractor),
                self.context_lines,
                self.matcher.spec_pattern(),
            ));
            assert(self.matches@.drop_last() =~= old_matches);
            if old_self.collected() && !old_self.stopped@ {
                let kept = kept_reports(
                    self.live_reports(),
                    self.skip_comments,
                    self.skip_imports,
                    self.skip_packages,
                );
                assert forall|i: int| 0 <= i < self.matches@.len() implies #[trigger] is_match_of(
                    self.matches@[i],
                    self.file_path,
                    kept[i].0,
                    kept[i].1,
                    context_text(self.context_extractor),
                    self.context_lines,
                    self.matcher.spec_pattern(),
                ) by {
                    if i < old_matches.len() {
                        assert(self.matches@[i] == old_matches[i]);
                    }
                }
            }
        }
        true
    }

    /// Handles one matching line: reads the cancellation flag, then
    /// `on_match`. Returns whether the search goes on.
    pub fn matched(&mut self, line_number: u64, bytes: &[u8]) -> (go_on: bool)
        ensures
            final(self).same_settings(*old(self)),
            go_on ==> old(self).matches@.len() < old(self).max_matches,
            final(self).seen@ == old(self).seen@.push((line_number, bytes@)),
            final(self).stopped@ == (old(self).stopped@ || !go_on),
            !go_on ==> final(self).matches@ == old(self).matches@,
            go_on ==> final(self).cancel_seen == old(self).cancel_seen,
            old(self).collected() && !old(self).stopped@ ==> final(self).collected(),
    {
        let cancelled = is_cancelled(&self.cancel_flag);
        self.on_match(cancelled, line_number, bytes)
    }
}

/// The lines that count after a stop are those handed over before it.
proof fn lemma_live_after_stop(seen: Seq<(u64, Seq<u8>)>, line_number: u64, bytes: Seq<u8>)
    ensures
        seen.push((line_number, bytes)).drop_last() == seen,
{
    assert(seen.push((line_number, bytes)).drop_last() =~= seen);
}

/// One more line handed over: the filters keep it or drop it.
proof fn lemma_kept_push(
    reports: Seq<(u64, Seq<u8>)>,
    r: (u64, Seq<u8>),
    skip_comments: bool,
    skip_imports: bool,
    skip_packages: bool,
)
    ensures
        kept_reports(reports.push(r), skip_comments, skip_imports, skip_packages) == if keeps_line(
            r,
            skip_comments,
            skip_imports,
            skip_packages,
        ) {
            kept_reports(reports, skip_comments, skip_imports, skip_packages).push(r)
        } else {
            kept_reports(reports, skip_comments, skip_imports, skip_packages)
        },
{
    assert(reports.push(r).drop_last() =~= reports);
    assert(reports.push(r).last() == r);
}

/// `r` is what compiling the matcher of `config` gives: a matcher with the
/// configuration's per-file settings where the pattern compiles, the
/// compiler's message otherwise.
pub open spec fn is_matcher_for(config: SearchConfig, r: SearchResult<Matcher>) -> bool {
    match r {
        Ok(m) => {
            &&& regex_matcher_error(spec_regex_pattern(config)) is None
            &&& m.spec_pattern() == spec_regex_pattern(config)
            &&& m.spec_context_lines() == config.context_lines
            &&& m.spec_max_matches_per_file() == config.max_matches_per_file
            &&& m.spec_skips() == (config.skip_comments, config.skip_imports, config.skip_packages)
        },
        Err(e) => {
            &&& regex_matcher_error(spec_regex_pattern(config)) is Some
            &&& e@ == ErrorView::RegexCompile(compile_error_message(
                spec_regex_pattern(config),
                regex_matcher_error(spec_regex_pattern(config))->0,
            ))
        },
    }
}

/// The matcher of one search: the compiled pattern and the per-file settings.
/// `regex_matcher` is compiled from `pattern`: only `Matcher::new` builds one.
pub struct Matcher {
    regex_matcher: RegexMatcher,
    pattern: String,
    context_lines: usize,
    max_matches_per_file: usize,
    skip_comments: bool,
    skip_imports: bool,
    skip_packages: bool,
}

impl Matcher {
    /// The regular expression the matcher was compiled from.
    pub closed spec fn spec_pattern(&self) -> Seq<char> {
        self.pattern@
    }

    /// Lines of context around each match.
    pub closed spec fn spec_context_lines(&self) -> usize {
        self.context_lines
    }

    /// Most matches kept from one file.
    pub closed spec fn spec_max_matches_per_file(&self) -> usize {
        self.max_matches_per_file
    }

    /// The line-kind filters: comments, imports, packages.
    pub closed spec fn spec_skips(&self) -> (bool, bool, bool) {
        (self.skip_comments, self.skip_imports, self.skip_packages)
    }

    /// Compiles the configuration's regular expression (see
    /// `SearchConfig::build_regex_pattern`) and keeps its per-file settings.
    pub fn new(config: &SearchConfig) -> (r: SearchResult<Self>)
        ensures
            is_matcher_for(*config, r),
    {
        let pattern = config.build_regex_pattern();
        match compile_matcher(pattern.as_str()) {
            Ok(regex_matcher) => Ok(Matcher {
                regex_matcher,
                pattern,
                context_lines: config.context_lines,
                max_matches_per_file: config.max_matches_per_file,
                skip_comments: config.skip_comments,
                skip_imports: config.skip_imports,
                skip_packages: config.skip_packages,
            }),
            Err(e) => {
                let m = joined("正则编译失败 '", pattern.as_str());
                let m = joined(m.as_str(), "': ");
                let m = joined(m.as_str(), e.as_str());
                Err(SearchError::RegexCompile(m))
            },
        }
    }

    /// The outcome of a file's search that `r` describes, given whether a
    /// raised cancellation flag was read: one match per reported line that the
    /// filters keep, in order, all of them up to `max_matches_per_file` unless
    /// a raised flag was read, some first ones of them in any case.
    pub open spec fn is_search_of(
        &self,
        path: PathBuf,
        haystack: Seq<u8>,
        v: Seq<SearchMatch>,
        cancel_seen: bool,
    ) -> bool {
        let reports = searcher_reports(self.spec_pattern(), haystack);
        let (sc, si, sp) = self.spec_skips();
        let text = context_source(self.spec_context_lines(), haystack);
        &&& v.len() <= self.spec_max_matches_per_file()
        &&& text_lines(reports)
        &&& in_line_order(reports, haystack.len())
        &&& forall|i: int, j: int|
            0 <= i < j < v.len() ==> (#[trigger] v[i]).line_number < (#[trigger] v[j]).line_number
        &&& exists|j: int|
            0 <= j <= reports.len() && #[trigger] matches_of_reports(
                v,
                kept_reports(reports.take(j), sc, si, sp),
                path,
                text,
                self.spec_context_lines(),
                self.spec_pattern(),
            )
        &&& !cancel_seen ==> matches_of_reports(
            v,
            capped_kept(reports, self.spec_max_matches_per_file(), sc, si, sp),
            path,
            text,
            self.spec_context_lines(),
            self.spec_pattern(),
        )
        &&& forall|i: int|
            0 <= i < v.len() ==> {
                &&& (#[trigger] v[i]).file_path == path
                &&& v[i].line_number >= 1
                &&& !is_skipped(v[i].line_kind, sc, si, sp)
                &&& v[i].line_kind == spec_classify_line(v[i].matched_text@)
            }
    }

    /// Searches the bytes of one file, and tells whether a read of
    /// `cancel_flag` found it raised. The matches are those of the lines that
    /// the searcher reports for the matcher's pattern that the line-kind
    /// filters keep, in order: one match per kept line, in file `path`, with
    /// its column and its context (none without context lines or above the
    /// context size limit). Unless a raised flag was read they are all of
    /// them, cut to `max_matches_per_file`; after a raised flag, those found
    /// before it.
    pub fn search_slice_observed(
        &self,
        path: &PathBuf,
        haystack: &[u8],
        cancel_flag: &Arc<AtomicBool>,
    ) -> (r: (SearchResult<Vec<SearchMatch>>, bool))
        ensures
            match r.0 {
                Ok(v) => self.is_search_of(*path, haystack@, v@, r.1),
                Err(e) => e@ == ErrorView::Io,
            },
    {
        let context_extractor = if self.context_lines > 0 {
            match ContextExtractor::new(haystack, self.context_lines) {
                Ok(e) => Some(e),
                Err(_) => None,
            }
        } else {
            None
        };
        let mut collector = MatchCollector {
            file_path: path.clone(),
            matches: Vec::new(),
            max_matches: self.max_matches_per_file,
            cancel_flag: cancel_flag.clone(),
            context_extractor,
            context_lines: self.context_lines,
            skip_comments: self.skip_comments,
            skip_imports: self.skip_imports,
            skip_packages: self.skip_packages,
            matcher: self,
            cancel_seen: false,
            seen: Ghost(Seq::empty()),
            stopped: Ghost(false),
        };
        assert(kept_reports(collector.live_reports(), self.skip_comments, self.skip_imports, self.skip_packages)
            =~= Seq::<(u64, Seq<u8>)>::empty());
        let ghost reports = searcher_reports(self.pattern@, haystack@);
        let mut searcher = new_searcher();
        match search_slice_into(&mut searcher, self, haystack, &mut collector) {
            Ok(()) => {
                let cancel_seen = collector.cancel_seen;
                let matches = collector.matches;
                proof {
                    let k = choose|k: int|
                        0 <= k <= reports.len() && #[trigger] reports.take(k) == collector.seen@.skip(0)
                            && collector.seen@ == Seq::<(u64, Seq<u8>)>::empty() + reports.take(k) && (k
                            < reports.len() ==> collector.stopped@);
                    let j = if collector.stopped@ { k - 1 } else { k };
                    assert(collector.seen@ =~= reports.take(k));
                    assert(collector.live_reports() =~= reports.take(j));
                    let (sc, si, sp) = (self.skip_comments, self.skip_imports, self.skip_packages);
                    let kept = kept_reports(reports.take(j), sc, si, sp);
                    let text = context_source(self.context_lines, haystack@);
                    assert(context_text(collector.context_extractor) == text);
                    assert(self.spec_skips() == (sc, si, sp));
                    assert(self.spec_pattern() == self.pattern@);
                    assert(matches_of_reports(matches@, kept, *path, text, self.context_lines, self.pattern@));
                    assert(0 <= j <= reports.len());
                    assert(matches_of_reports(
                        matches@,
                        kept_reports(searcher_reports(self.spec_pattern(), haystack@).take(j), sc, si, sp),
                        *path,
                        context_source(self.spec_context_lines(), haystack@),
                        self.spec_context_lines(),
                        self.spec_pattern(),
                    ));
                    if !cancel_seen {
                        let all = kept_reports(reports, sc, si, sp);
                        if collector.stopped@ {
                            lemma_kept_prefix(reports, j, sc, si, sp);
                            assert(kept.len() == self.max_matches_per_file);
                            assert(all.take(self.max_matches_per_file as int) =~= kept);
                        } else {
                            assert(reports.take(j) =~= reports);
                        }
                        assert(capped_kept(reports, self.max_matches_per_file, sc, si, sp) =~= kept);
                    }
                    lemma_kept_lines_pass_filters(reports.take(j), sc, si, sp);
                    assert(haystack@.len() == haystack.len());
                    lemma_take_in_order(reports, j, haystack@.len());
                    lemma_kept_in_order(reports.take(j), haystack@.len(), sc, si, sp);
                    lemma_matches_in_order(matches@, kept, *path, text, self.context_lines, self.pattern@, haystack@.len());
                    assert forall|i: int| 0 <= i < matches@.len() implies {
                        &&& (#[trigger] matches@[i]).file_path == *path
                        &&& matches@[i].line_number >= 1
                        &&& !is_skipped(matches@[i].line_kind, sc, si, sp)
                        &&& matches@[i].line_kind == spec_classify_line(matches@[i].matched_text@)
                    } by {
                        assert(is_match_of(
                            matches@[i],
                            *path,
                            kept[i].0,
                            kept[i].1,
                            text,
                            self.context_lines,
                            self.pattern@,
                        ));
                        assert(keeps_line(kept[i], sc, si, sp));
                    }
                }
                (Ok(matches), cancel_seen)
            },
            Err(e) => {
                let m = joined("搜索文件失败 ", display_path(path).as_str());
                let m = joined(m.as_str(), ": ");
                let m = joined(m.as_str(), io_error_text(&e).as_str());
                (Err(SearchError::Io(io_error_other(m))), collector.cancel_seen)
            },
        }
    }

    /// Searches the bytes of one file: `search_slice_observed` without the
    /// note of a cancellation read. The matches are those of the reported
    /// lines that the filters keep, in order, with their columns and
    /// context: all of them up to `max_matches_per_file`, or those found
    /// before a raised `cancel_flag` was read.
    pub fn search_slice(&self, path: &PathBuf, haystack: &[u8], cancel_flag: &Arc<AtomicBool>) -> (r:
        SearchResult<Vec<SearchMatch>>)
        ensures
            match r {
                Ok(v) => exists|cancel_seen: bool| #[trigger] self.is_search_of(*path, haystack@, v@, cancel_seen),
                Err(e) => e@ == ErrorView::Io,
            },
    {
        let (r, cancel_seen) = self.search_slice_observed(path, haystack, cancel_flag);
        proof {
            if let Ok(v) = &r {
                assert(self.is_search_of(*path, haystack@, v@, cancel_seen));
            }
        }
        r
    }
}

/// A prefix of reports in file order is in file order.
proof fn lemma_take_in_order(reports: Seq<(u64, Seq<u8>)>, j: int, len: nat)
    requires
        in_line_order(reports, len),
        0 <= j <= reports.len(),
    ensures
        in_line_order(reports.take(j), len),
{
    let t = reports.take(j);
    assert forall|a: int, b: int| 0 <= a < b < t.len() implies (#[trigger] t[a]).0 < (#[trigger] t[b]).0 by {
        assert(t[a] == reports[a] && t[b] == reports[b]);
    }
    assert forall|a: int| 0 <= a < t.len() implies 1 <= (#[trigger] t[a]).0 <= len by {
        assert(t[a] == reports[a]);
    }
}

/// The matches of reports in file order have increasing line numbers, from 1.
proof fn lemma_matches_in_order(
    ms: Seq<SearchMatch>,
    reports: Seq<(u64, Seq<u8>)>,
    path: PathBuf,
    text: Option<Seq<u8>>,
    n: usize,
    pattern: Seq<char>,
    len: nat,
)
    requires
        matches_of_reports(ms, reports, path, text, n, pattern),
        in_line_order(reports, len),
        len <= usize::MAX,
    ensures
        forall|a: int, b: int| 0 <= a < b < ms.len() ==> (#[trigger] ms[a]).line_number < (#[trigger] ms[b]).line_number,
        forall|a: int| 0 <= a < ms.len() ==> (#[trigger] ms[a]).line_number >= 1,
{
    assert forall|a: int, b: int| 0 <= a < b < ms.len() implies (#[trigger] ms[a]).line_number < (
    #[trigger] ms[b]).line_number by {
        assert(is_match_of(ms[a], path, reports[a].0, reports[a].1, text, n, pattern));
        assert(is_match_of(ms[b], path, reports[b].0, reports[b].1, text, n, pattern));
        assert(reports[a].0 < reports[b].0);
    }
    assert forall|a: int| 0 <= a < ms.len() implies (#[trigger] ms[a]).line_number >= 1 by {
        assert(is_match_of(ms[a], path, reports[a].0, reports[a].1, text, n, pattern));
        assert(1 <= reports[a].0 <= len);
    }
}

/// The lines the filters keep of reports in file order are in file order,
/// and none comes after the last report.
proof fn lemma_kept_in_order(
    reports: Seq<(u64, Seq<u8>)>,
    len: nat,
    skip_comments: bool,
    skip_imports: bool,
    skip_packages: bool,
)
    requires
        in_line_order(reports, len),
    ensures
        in_line_order(kept_reports(reports, skip_comments, skip_imports, skip_packages), len),
        kept_reports(reports, skip_comments, skip_imports, skip_packages).len() > 0 ==> reports.len() > 0
            && kept_reports(reports, skip_comments, skip_imports, skip_packages).last().0 <= reports.last().0,
    decreases reports.len(),
{
    if reports.len() > 0 {
        let rest = reports.drop_last();
        assert(in_line_order(rest, len)) by {
            assert forall|i: int, j: int| 0 <= i < j < rest.len() implies (#[trigger] rest[i]).0 < (
            #[trigger] rest[j]).0 by {
                assert(rest[i] == reports[i] && rest[j] == reports[j]);
            }
            assert forall|i: int| 0 <= i < rest.len() implies 1 <= (#[trigger] rest[i]).0 <= len by {
                assert(rest[i] == reports[i]);
            }
        }
        lemma_kept_in_order(rest, len, skip_comments, skip_imports, skip_packages);
        let before = kept_reports(rest, skip_comments, skip_imports, skip_packages);
        let kept = kept_reports(reports, skip_comments, skip_imports, skip_packages);
        if before.len() > 0 {
            assert(rest.last() == reports[reports.len() - 2]);
            assert(before.last().0 < reports.last().0);
        }
        if keeps_line(reports.last(), skip_comments, skip_imports, skip_packages) {
            assert(kept == before.push(reports.last()));
            assert forall|i: int, j: int| 0 <= i < j < kept.len() implies (#[trigger] kept[i]).0 < (
            #[trigger] kept[j]).0 by {
                if j < before.len() {
                    assert(kept[i] == before[i] && kept[j] == before[j]);
                } else {
                    assert(kept[i] == before[i]);
                    assert(before[i].0 <= before.last().0);
                }
            }
            assert forall|i: int| 0 <= i < kept.len() implies 1 <= (#[trigger] kept[i]).0 <= len by {
                if i < before.len() {
                    assert(kept[i] == before[i]);
                } else {
                    assert(kept[i] == reports[reports.len() - 1]);
                }
            }
        }
    }
}

/// The lines a prefix of the reports keeps are the first ones of all the
/// lines kept.
proof fn lemma_kept_prefix(
    reports: Seq<(u64, Seq<u8>)>,
    j: int,
    skip_comments: bool,
    skip_imports: bool,
    skip_packages: bool,
)
    requires
        0 <= j <= reports.len(),
    ensures
        kept_reports(reports.take(j), skip_comments, skip_imports, skip_packages).len() <= kept_reports(
            reports,
            skip_comments,
            skip_imports,
            skip_packages,
        ).len(),
        kept_reports(reports.take(j), skip_comments, skip_imports, skip_packages) == kept_reports(
            reports,
            skip_comments,
            skip_imports,
            skip_packages,
        ).take(kept_reports(reports.take(j), skip_comments, skip_imports, skip_packages).len() as int),
    decreases reports.len(),
{
    let all = kept_reports(reports, skip_comments, skip_imports, skip_packages);
    if j == reports.len() {
        assert(reports.take(j) =~= reports);
        assert(all.take(all.len() as int) =~= all);
    } else {
        let rest = reports.drop_last();
        assert(reports.take(j) =~= rest.take(j));
        lemma_kept_prefix(rest, j, skip_comments, skip_imports, skip_packages);
        let before = kept_reports(rest, skip_comments, skip_imports, skip_packages);
        let part = kept_reports(rest.take(j), skip_comments, skip_imports, skip_packages);
        assert(all.take(part.len() as int) =~= before.take(part.len() as int));
    }
}

/// Every line that the filters keep passes them.
proof fn lemma_kept_lines_pass_filters(
    reports: Seq<(u64, Seq<u8>)>,
    skip_comments: bool,
    skip_imports: bool,
    skip_packages: bool,
)
    ensures
        forall|i: int|
            0 <= i < kept_reports(reports, skip_comments, skip_imports, skip_packages).len() ==> keeps_line(
                #[trigger] kept_reports(reports, skip_comments, skip_imports, skip_packages)[i],
                skip_comments,
                skip_imports,
                skip_packages,
            ),
    decreases reports.len(),
{
    if reports.len() > 0 {
        let before = kept_reports(reports.drop_last(), skip_comments, skip_imports, skip_packages);
        lemma_kept_lines_pass_filters(reports.drop_last(), skip_comments, skip_imports, skip_packages);
        let kept = kept_reports(reports, skip_comments, skip_imports, skip_packages);
        assert forall|i: int| 0 <= i < kept.len() implies keeps_line(
            #[trigger] kept[i],
            skip_comments,
            skip_imports,
            skip_packages,
        ) by {
            if i < before.len() {
                assert(kept[i] == before[i]);
            }
        }
    }
}

} // verus!
