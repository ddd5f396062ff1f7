//! The fields of the JVM's result object for one match.

use vstd::prelude::*;

use crate::search::context::strings_view;
use crate::search::line_kind::spec_ordinal;
use crate::search::matcher::SearchMatch;
use crate::util::path::path_to_string;

verus! {

/// The constructor arguments of the JVM's `SearchResult`, as plain values:
/// path, line, column, matched line, context before and after, line kind.
pub struct JvmRecord {
    pub path: String,
    pub line: i32,
    pub column: i32,
    pub matched: String,
    pub before: Vec<String>,
    pub after: Vec<String>,
    pub line_kind: i32,
}

/// The JVM record of a match. Line and column are passed as the JVM's
/// 32-bit integers (the low 32 bits, as a cast gives them); the line kind
/// by its ordinal (0 code, 1 comment, 2 import, 3 package).
pub fn jvm_record(m: &SearchMatch) -> (r: JvmRecord)
    ensures
        r.line == m.line_number as i32,
        r.column == m.column as i32,
        r.matched@ == m.matched_text@,
        strings_view(r.before@) == strings_view(m.context_before@),
        strings_view(r.after@) == strings_view(m.context_after@),
        r.line_kind == spec_ordinal(m.line_kind),
{
    JvmRecord {
        path: path_to_string(m.file_path.as_path()),
        line: m.line_number as i32,
        column: m.column as i32,
        matched: m.matched_text.clone(),
        before: m.context_before.clone(),
        after: m.context_after.clone(),
        line_kind: m.line_kind.ordinal(),
    }
}

} // verus!
