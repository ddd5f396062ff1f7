//! Conversion of the JVM's arguments into a search configuration.
//!
//! The JVM hands over booleans as bytes and integers as signed 32-bit values;
//! the strings and string arrays arrive already decoded.

use std::path::PathBuf;

use jni::sys::{jboolean, jint};
use vstd::prelude::*;

use crate::error::{unit_result_view, SearchResult};
use crate::search::config::{is_validation_outcome, SearchConfig};

verus! {

/// A JVM boolean is true when it is not zero.
pub fn jboolean_to_bool(val: jboolean) -> (b: bool)
    ensures
        b == (val != 0),
{
    val != 0
}

/// A JVM count: negative values count as zero.
pub open spec fn spec_jint_to_usize(val: i32) -> int {
    if val < 0 { 0 } else { val as int }
}

/// A JVM count as a `usize`: negative values become zero.
pub fn jint_to_usize(val: jint) -> (n: usize)
    ensures
        n == spec_jint_to_usize(val),
{
    if val < 0 {
        0
    } else {
        val as usize
    }
}

/// The configuration that the JVM's arguments describe, before validation:
/// the defaults of `SearchConfig::new`, with the three flags, the globs and
/// the context size from the request.
pub open spec fn spec_jni_config(
    roots: Vec<PathBuf>,
    pattern: String,
    is_regex: u8,
    case_sensitive: u8,
    whole_words: u8,
    include_globs: Vec<String>,
    exclude_globs: Vec<String>,
    context_lines: i32,
    base: SearchConfig,
) -> bool {
    &&& base.roots == roots
    &&& base.pattern == pattern
    &&& base.is_regex == (is_regex != 0)
    &&& base.case_sensitive == (case_sensitive != 0)
    &&& base.whole_words == (whole_words != 0)
    &&& base.include_globs == include_globs
    &&& base.exclude_globs == exclude_globs
    &&& base.context_lines == spec_jint_to_usize(context_lines)
    &&& base.max_matches_per_file == crate::search::config::DEFAULT_MAX_MATCHES_PER_FILE
    &&& base.max_total_matches == crate::search::config::DEFAULT_MAX_TOTAL_MATCHES
    &&& !base.search_hidden
    &&& !base.skip_comments
    &&& !base.skip_imports
    &&& !base.skip_packages
}

/// The configuration of a request from the JVM, validated. On success it is
/// the configuration that the arguments describe; on failure the error is
/// what validating that configuration reports.
pub fn build_config_from_jni(
    roots: Vec<PathBuf>,
    pattern: String,
    is_regex: jboolean,
    case_sensitive: jboolean,
    whole_words: jboolean,
    include_globs: Vec<String>,
    exclude_globs: Vec<String>,
    context_lines: jint,
) -> (r: SearchResult<SearchConfig>)
    ensures
        r matches Ok(c) ==> spec_jni_config(
            roots,
            pattern,
            is_regex,
            case_sensitive,
            whole_words,
            include_globs,
            exclude_globs,
            context_lines,
            c,
        ) && is_validation_outcome(c, Ok(())),
        r matches Err(e) ==> exists|c: SearchConfig|
            spec_jni_config(
                roots,
                pattern,
                is_regex,
                case_sensitive,
                whole_words,
                include_globs,
                exclude_globs,
                context_lines,
                c,
            ) && #[trigger] is_validation_outcome(c, Err(e@)),
{
    let ghost (r0, p0, i0, e0) = (roots, pattern, include_globs, exclude_globs);
    let mut config = SearchConfig::new(roots, pattern);
    config.is_regex = jboolean_to_bool(is_regex);
    config.case_sensitive = jboolean_to_bool(case_sensitive);
    config.whole_words = jboolean_to_bool(whole_words);
    config.include_globs = include_globs;
    config.exclude_globs = exclude_globs;
    config.context_lines = jint_to_usize(context_lines);
    let v = config.validate();
    match v {
        Ok(()) => Ok(config),
        Err(e) => {
            assert(unit_result_view(Err(e)) == Err::<(), crate::error::ErrorView>(e@));
            Err(e)
        },
    }
}

} // verus!
