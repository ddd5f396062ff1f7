//! The search engine: what happens before the files are searched, what each
//! file's outcome counts for, and how the outcomes become one answer.
//!
//! The files themselves are read and searched in parallel by the caller; the
//! engine owns the configuration and the cancellation flag, prepares the list
//! of files and the matcher, and merges the per-file results under the global
//! limit.

use std::path::PathBuf;
use std::sync::atomic::{AtomicBool, Ordering};
use std::sync::Arc;

use vstd::prelude::*;

use crate::error::{ErrorView, SearchError, SearchResult};
use crate::search::config::{
    is_validation_outcome, passes_static_checks, same_config, spec_regex_pattern, SearchConfig,
};
use crate::search::matcher::{
    compile_error_message, is_cancelled, is_matcher_for, regex_matcher_error, Matcher, SearchMatch,
};
use crate::search::walker::{globs_fail, spec_files_of_walks, WalkEntry, Walker};
use crate::util::shared::share;

verus! {

/// The matches of the files that were searched, in order; a file that
/// failed contributes none.
pub open spec fn flatten_matches(results: Seq<SearchResult<Vec<SearchMatch>>>) -> Seq<SearchMatch>
    decreases results.len(),
{
    if results.len() == 0 {
        Seq::empty()
    } else {
        flatten_matches(results.drop_last()) + match results.last() {
            Ok(v) => v@,
            Err(_) => Seq::empty(),
        }
    }
}

/// Every per-file outcome is a success.
pub open spec fn all_ok(results: Seq<SearchResult<Vec<SearchMatch>>>) -> bool {
    forall|i: int| 0 <= i < results.len() ==> (#[trigger] results[i]) is Ok
}

/// The index of the first failed per-file outcome, if any.
pub open spec fn first_failure(results: Seq<SearchResult<Vec<SearchMatch>>>) -> Option<int>
    decreases results.len(),
{
    if results.len() == 0 {
        None
    } else if results[0] is Err {
        Some(0)
    } else {
        match first_failure(results.drop_first()) {
            Some(i) => Some(i + 1),
            None => None,
        }
    }
}

/// The first `max` of `s` (all of it when it is shorter).
pub open spec fn capped<T>(s: Seq<T>, max: usize) -> Seq<T> {
    if s.len() > max { s.take(max as int) } else { s }
}

/// The engine of one search.
pub struct SearchEngine {
    config: SearchConfig,
    cancel_flag: Arc<AtomicBool>,
}

impl SearchEngine {
    /// The configuration of the search.
    pub closed spec fn spec_config(&self) -> SearchConfig {
        self.config
    }

    /// A new engine; the search is not cancelled.
    pub fn new(config: SearchConfig) -> (e: Self)
        ensures
            e.spec_config() == config,
    {
        SearchEngine { config, cancel_flag: Arc::new(AtomicBool::new(false)) }
    }

    /// The configuration of the search.
    pub fn config(&self) -> (c: &SearchConfig)
        ensures
            *c == self.spec_config(),
    {
        &self.config
    }

    /// The cancellation flag of the search.
    pub closed spec fn spec_cancel_flag(&self) -> Arc<AtomicBool> {
        self.cancel_flag
    }

    /// A handle on the cancellation flag, for whoever may cancel the search.
    pub fn cancel_handle(&self) -> (h: Arc<AtomicBool>)
        ensures
            h == self.spec_cancel_flag(),
    {
        share(&self.cancel_flag)
    }

    /// Asks the search to stop at its next check.
    pub fn cancel(&self) {
        self.cancel_flag.store(true, Ordering::Relaxed);
    }

    /// Whether the search was asked to stop.
    pub fn is_cancelled(&self) -> bool {
        is_cancelled(&self.cancel_flag)
    }

    /// What comes before the files are searched: the configuration is
    /// validated, the files of every root's walk are listed, a cancellation
    /// is honoured, and the pattern is compiled.
    pub fn prepare(&self) -> (r: SearchResult<(Vec<PathBuf>, Matcher)>)
        ensures
            !passes_static_checks(self.spec_config()) ==> (r matches Err(e) && is_validation_outcome(
                self.spec_config(),
                Err(e@),
            )),
            r matches Ok((files, m)) ==> {
                &&& passes_static_checks(self.spec_config())
                &&& is_matcher_for(self.spec_config(), Ok(m))
                &&& exists|walks: Seq<Vec<Result<WalkEntry, String>>>|
                    walks.len() == self.spec_config().roots@.len() && #[trigger] spec_files_of_walks(walks)
                        == Ok::<Seq<PathBuf>, Seq<char>>(files@)
            },
            r matches Err(e) ==> {
                ||| is_validation_outcome(self.spec_config(), Err(e@))
                ||| (e@ is InvalidPattern && globs_fail(self.spec_config()))
                ||| e@ == ErrorView::Io
                ||| e@ == ErrorView::Cancelled
                ||| e@ == ErrorView::RegexCompile(
                    compile_error_message(
                        spec_regex_pattern(self.spec_config()),
                        regex_matcher_error(spec_regex_pattern(self.spec_config()))->0,
                    ),
                )
            },
    {
        match self.config.validate() {
            Ok(()) => {},
            Err(e) => {
                return Err(e);
            },
        }
        proof {
            let cfg = self.config;
            let missing = choose|missing: Option<Seq<char>>|
                (cfg.roots.len() == 0 ==> missing is None) && #[trigger] crate::search::config::spec_validation(
                    cfg,
                    missing,
                ) == Ok::<(), ErrorView>(());
            assert(missing is None);
        }
        let walker = Walker::new(self.config.clone());
        let files = match walker.files() {
            Ok(f) => f,
            Err(e) => return Err(e),
        };
        let cancelled = self.is_cancelled();
        self.prepare_listed(files, cancelled)
    }

    /// What comes once the files are listed and the cancellation flag has
    /// been read: a cancelled search stops; otherwise the pattern is
    /// compiled, and the files are handed on as they are.
    pub fn prepare_listed(&self, files: Vec<PathBuf>, cancelled: bool) -> (r: SearchResult<(Vec<PathBuf>, Matcher)>)
        ensures
            cancelled ==> (r matches Err(e) && e@ == ErrorView::Cancelled),
            !cancelled ==> match r {
                Ok((f, m)) => f@ == files@ && is_matcher_for(self.spec_config(), Ok(m)),
                Err(e) => is_matcher_for(self.spec_config(), Err(e)),
            },
    {
        if cancelled {
            return Err(SearchError::Cancelled);
        }
        match Matcher::new(&self.config) {
            Ok(m) => Ok((files, m)),
            Err(e) => Err(e),
        }
    }

    /// What one file's outcome counts for: an I/O or JVM failure of a single
    /// file counts as a file without matches; any other failure stops the search.
    pub fn admit_file_result(r: SearchResult<Vec<SearchMatch>>) -> (a: SearchResult<Vec<SearchMatch>>)
        ensures
            match r {
                Ok(v) => a == Ok::<Vec<SearchMatch>, SearchError>(v),
                Err(SearchError::Io(_)) => a matches Ok(v) && v@.len() == 0,
                Err(SearchError::Jni(_)) => a matches Ok(v) && v@.len() == 0,
                Err(e) => a == Err::<Vec<SearchMatch>, SearchError>(e),
            },
    {
        match r {
            Ok(v) => Ok(v),
            Err(SearchError::Io(_)) => Ok(Vec::new()),
            Err(SearchError::Jni(_)) => Ok(Vec::new()),
            Err(e) => Err(e),
        }
    }

    /// The answer, once the cancellation flag has been read: the first failed
    /// file's error if there is one; otherwise `Cancelled` if the search was
    /// cancelled; otherwise the matches of all files, in order, cut to
    /// `max_total_matches`.
    pub fn finish_with(&self, per_file: Vec<SearchResult<Vec<SearchMatch>>>, cancelled: bool) -> (r:
        SearchResult<Vec<SearchMatch>>)
        ensures
            match first_failure(per_file@) {
                Some(i) => r == per_file@[i],
                None => if cancelled {
                    r matches Err(e) && e@ == ErrorView::Cancelled
                } else {
                    r matches Ok(v) && v@ == capped(
                        flatten_matches(per_file@),
                        self.spec_config().max_total_matches,
                    )
                },
            },
    {
        let ghost all_results = per_file@;
        let mut all: Vec<SearchMatch> = Vec::new();
        let ghost mut i: int = 0;
        assert(all_results.skip(0) =~= all_results);
        for r in it: per_file.into_iter()
            invariant
                it.seq() == all_results,
                i == it.index(),
                0 <= i <= all_results.len(),
                all@ == flatten_matches(all_results.take(i)),
                first_failure(all_results) == match first_failure(all_results.skip(i)) {
                    Some(j) => Some(j + i),
                    None => None::<int>,
                },
        {
            proof {
                lemma_first_failure_step(all_results, i);
                assert(all_results.take(i + 1).drop_last() =~= all_results.take(i));
            }
            match r {
                Ok(mut v) => {
                    all.append(&mut v);
                },
                Err(e) => {
                    return Err(e);
                },
            }
            proof {
                i = i + 1;
            }
        }
        proof {
            assert(all_results.take(i) =~= all_results);
            assert(all_results.skip(i) =~= Seq::<SearchResult<Vec<SearchMatch>>>::empty());
        }
        if all.len() > self.config.max_total_matches {
            all.truncate(self.config.max_total_matches);
        }
        if cancelled {
            return Err(SearchError::Cancelled);
        }
        Ok(all)
    }

    /// The answer: `finish_with` on the flag as it reads now.
    pub fn finish(&self, per_file: Vec<SearchResult<Vec<SearchMatch>>>) -> (r: SearchResult<Vec<SearchMatch>>)
        ensures
            match first_failure(per_file@) {
                Some(i) => r == per_file@[i],
                None => r matches Ok(v) ==> v@ == capped(
                    flatten_matches(per_file@),
                    self.spec_config().max_total_matches,
                ),
            },
            r matches Err(e) ==> (first_failure(per_file@) is Some || e@ == ErrorView::Cancelled),
    {
        let cancelled = self.is_cancelled();
        self.finish_with(per_file, cancelled)
    }
}

/// The merged answer never exceeds the global limit and keeps the matches in
/// the order the files gave them: it is the first `max` of them.
pub proof fn law_merged_matches_within_limit(per_file: Seq<SearchResult<Vec<SearchMatch>>>, max: usize)
    ensures
        capped(flatten_matches(per_file), max).len() <= max,
        capped(flatten_matches(per_file), max) =~= flatten_matches(per_file).take(
            capped(flatten_matches(per_file), max).len() as int,
        ),
        flatten_matches(per_file).len() <= max ==> capped(flatten_matches(per_file), max)
            == flatten_matches(per_file),
{
}

/// The first failure of `rs` from index `i` on, against that from `i + 1` on.
proof fn lemma_first_failure_step(rs: Seq<SearchResult<Vec<SearchMatch>>>, i: int)
    requires
        0 <= i < rs.len(),
    ensures
        first_failure(rs.skip(i)) == if rs[i] is Err {
            Some(0int)
        } else {
            match first_failure(rs.skip(i + 1)) {
                Some(j) => Some(j + 1),
                None => None,
            }
        },
{
    assert(rs.skip(i)[0] == rs[i]);
    assert(rs.skip(i).drop_first() =~= rs.skip(i + 1));
}

} // verus!
