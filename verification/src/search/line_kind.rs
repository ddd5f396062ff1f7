//! Line classification: comment, import, package or code.
//!
//! A plain prefix test on the line without its leading whitespace, which covers
//! the common languages without aiming at full accuracy:
//! - comment: `//`, `#`, `/*`, `*`, `<!--`, `--`
//! - package: the `package` keyword (Java, Kotlin, Go)
//! - import: `import`, `#include`, `include`, `require`, `using`, `from`
//! - anything else: code
//!
//! The matcher uses the kind to drop the lines that the configuration's
//! `skip_comments`, `skip_imports` and `skip_packages` flags exclude.

use vstd::prelude::*;

use crate::util::text::{
    chars_of, is_unicode_whitespace, leading_whitespace, skip_whitespace, starts_with, starts_with_at, trim_start,
};

verus! {

/// The kind of a line. The ordinals (0 code, 1 comment, 2 import, 3 package)
/// are those of the `LineKind` enum on the JVM side.
#[derive(Debug, Clone, Copy, PartialEq, Eq, Structural)]
pub enum LineKind {
    /// Ordinary code.
    Code,
    /// A comment line (`//`, `#`, `/*`, `*`, `<!--`, `--`).
    Comment,
    /// An import line (`import`, `#include`, `include`, `require`, `using`, `from`).
    Import,
    /// A package declaration (Java, Kotlin, Go).
    Package,
}

impl Default for LineKind {
    fn default() -> (r: LineKind)
        ensures
            r == LineKind::Code,
    {
        LineKind::Code
    }
}

/// The ordinal of a kind on the JVM side.
pub open spec fn spec_ordinal(k: LineKind) -> int {
    match k {
        LineKind::Code => 0,
        LineKind::Comment => 1,
        LineKind::Import => 2,
        LineKind::Package => 3,
    }
}

impl LineKind {
    /// The ordinal passed to the JVM.
    pub fn ordinal(&self) -> (r: i32)
        ensures
            r == spec_ordinal(*self),
    {
        match self {
            LineKind::Code => 0,
            LineKind::Comment => 1,
            LineKind::Import => 2,
            LineKind::Package => 3,
        }
    }
}

/// The line starts (after its whitespace) like a package declaration.
pub open spec fn is_package_line(t: Seq<char>) -> bool {
    starts_with(t, "package "@)
}

/// The line starts (after its whitespace) like an import.
pub open spec fn is_import_line(t: Seq<char>) -> bool {
    ||| starts_with(t, "import "@)
    ||| starts_with(t, "#include"@)
    ||| starts_with(t, "include "@)
    ||| starts_with(t, "require "@)
    ||| starts_with(t, "using "@)
    ||| starts_with(t, "from "@)
}

/// The line starts (after its whitespace) like a comment.
pub open spec fn is_comment_line(t: Seq<char>) -> bool {
    ||| starts_with(t, "//"@)
    ||| starts_with(t, "#"@)
    ||| starts_with(t, "/*"@)
    ||| starts_with(t, "*"@)
    ||| starts_with(t, "<!--"@)
    ||| starts_with(t, "--"@)
}

/// The kind of a line: package before import before comment (so that
/// `#include` is an import), code otherwise.
pub open spec fn spec_classify_line(line: Seq<char>) -> LineKind {
    let t = trim_start(line);
    if is_package_line(t) {
        LineKind::Package
    } else if is_import_line(t) {
        LineKind::Import
    } else if is_comment_line(t) {
        LineKind::Comment
    } else {
        LineKind::Code
    }
}

/// Classifies a line by the prefix of its text after the leading whitespace.
///
/// `package` needs its trailing space so that `packageInfo` stays code; the
/// import prefixes are tested before the comment ones because `#include` starts
/// with `#`. A middle line of a block comment (`* ...`) is a comment, and so is a
/// line that starts with a multiplication.
pub fn classify_line(line: &str) -> (r: LineKind)
    ensures
        r == spec_classify_line(line@),
{
    let chars = chars_of(line);
    let k = skip_whitespace(&chars);
    proof {
        assert(chars@.skip(k as int) == trim_start(line@));
    }
    if starts_with_at(&chars, k, "package ") {
        return LineKind::Package;
    }
    if starts_with_at(&chars, k, "import ") || starts_with_at(&chars, k, "#include")
        || starts_with_at(&chars, k, "include ") || starts_with_at(&chars, k, "require ")
        || starts_with_at(&chars, k, "using ") || starts_with_at(&chars, k, "from ")
    {
        return LineKind::Import;
    }
    if starts_with_at(&chars, k, "//") || starts_with_at(&chars, k, "#")
        || starts_with_at(&chars, k, "/*") || starts_with_at(&chars, k, "*")
        || starts_with_at(&chars, k, "<!--") || starts_with_at(&chars, k, "--")
    {
        return LineKind::Comment;
    }
    LineKind::Code
}

/// A text whose character at `i` differs from that of `p` does not start with `p`.
proof fn lemma_differs_at(t: Seq<char>, p: Seq<char>, i: int)
    requires
        0 <= i < p.len(),
        i < t.len(),
        t[i] != p[i],
    ensures
        !starts_with(t, p),
{
    if starts_with(t, p) {
        assert(t.subrange(0, p.len() as int)[i] == t[i]);
    }
}

/// A line whose text after its indentation starts with `package ` is a
/// package declaration.
pub proof fn law_package_prefix(line: Seq<char>)
    requires
        trim_start(line).len() >= 8,
        trim_start(line).subrange(0, 8) == "package "@,
    ensures
        spec_classify_line(line) == LineKind::Package,
{
    reveal_strlit("package ");
    reveal_strlit("import ");
    reveal_strlit("#include");
    reveal_strlit("include ");
    reveal_strlit("require ");
    reveal_strlit("using ");
    reveal_strlit("from ");
    reveal_strlit("//");
    reveal_strlit("#");
    reveal_strlit("/*");
    reveal_strlit("*");
    reveal_strlit("<!--");
    reveal_strlit("--");
    reveal_strlit("package");
    reveal_strlit("import");
    reveal_strlit("include");
    reveal_strlit("require");
    reveal_strlit("using");
    reveal_strlit("from");
}

/// A line whose text after its indentation starts with one of `import `,
/// `#include`, `include `, `require `, `using ` and `from ` is an import.
pub proof fn law_import_prefixes(line: Seq<char>, prefix: Seq<char>)
    requires
        prefix == "import "@ || prefix == "#include"@ || prefix == "include "@ || prefix == "require "@
            || prefix == "using "@ || prefix == "from "@,
        trim_start(line).len() >= prefix.len(),
        trim_start(line).subrange(0, prefix.len() as int) == prefix,
    ensures
        spec_classify_line(line) == LineKind::Import,
{
    reveal_strlit("package ");
    reveal_strlit("import ");
    reveal_strlit("#include");
    reveal_strlit("include ");
    reveal_strlit("require ");
    reveal_strlit("using ");
    reveal_strlit("from ");
    reveal_strlit("//");
    reveal_strlit("#");
    reveal_strlit("/*");
    reveal_strlit("*");
    reveal_strlit("<!--");
    reveal_strlit("--");
    reveal_strlit("package");
    reveal_strlit("import");
    reveal_strlit("include");
    reveal_strlit("require");
    reveal_strlit("using");
    reveal_strlit("from");
    let t = trim_start(line);
    assert(t[0] == prefix[0]) by {
        assert(t.subrange(0, prefix.len() as int)[0] == t[0]);
    }
    lemma_differs_at(t, "package "@, 0);
}

/// A line whose text after its indentation starts with one of `//`, `#`,
/// `/*`, `*`, `<!--` and `--`, and not with `#include`, is a comment.
pub proof fn law_comment_prefixes(line: Seq<char>, prefix: Seq<char>)
    requires
        prefix == "//"@ || prefix == "#"@ || prefix == "/*"@ || prefix == "*"@ || prefix == "<!--"@ || prefix
            == "--"@,
        trim_start(line).len() >= prefix.len(),
        trim_start(line).subrange(0, prefix.len() as int) == prefix,
        !(trim_start(line).len() >= 8 && trim_start(line).subrange(0, 8) == "#include"@),
    ensures
        spec_classify_line(line) == LineKind::Comment,
{
    reveal_strlit("package ");
    reveal_strlit("import ");
    reveal_strlit("#include");
    reveal_strlit("include ");
    reveal_strlit("require ");
    reveal_strlit("using ");
    reveal_strlit("from ");
    reveal_strlit("//");
    reveal_strlit("#");
    reveal_strlit("/*");
    reveal_strlit("*");
    reveal_strlit("<!--");
    reveal_strlit("--");
    reveal_strlit("package");
    reveal_strlit("import");
    reveal_strlit("include");
    reveal_strlit("require");
    reveal_strlit("using");
    reveal_strlit("from");
    let t = trim_start(line);
    assert(t[0] == prefix[0]) by {
        assert(t.subrange(0, prefix.len() as int)[0] == t[0]);
    }
    lemma_differs_at(t, "package "@, 0);
    lemma_differs_at(t, "import "@, 0);
    lemma_differs_at(t, "include "@, 0);
    lemma_differs_at(t, "require "@, 0);
    lemma_differs_at(t, "using "@, 0);
    lemma_differs_at(t, "from "@, 0);
}

/// A keyword counts only with a space after it: a line whose text after its
/// indentation starts with `package`, `import`, `include`, `require`, `using`
/// or `from` followed by any other character (as in `require(` or
/// `packageInfo`) is code.
pub proof fn law_keyword_needs_space(line: Seq<char>, word: Seq<char>)
    requires
        word == "package"@ || word == "import"@ || word == "include"@ || word == "require"@ || word == "using"@
            || word == "from"@,
        trim_start(line).len() > word.len(),
        trim_start(line).subrange(0, word.len() as int) == word,
        trim_start(line)[word.len() as int] != ' ',
    ensures
        spec_classify_line(line) == LineKind::Code,
{
    reveal_strlit("package ");
    reveal_strlit("import ");
    reveal_strlit("#include");
    reveal_strlit("include ");
    reveal_strlit("require ");
    reveal_strlit("using ");
    reveal_strlit("from ");
    reveal_strlit("//");
    reveal_strlit("#");
    reveal_strlit("/*");
    reveal_strlit("*");
    reveal_strlit("<!--");
    reveal_strlit("--");
    reveal_strlit("package");
    reveal_strlit("import");
    reveal_strlit("include");
    reveal_strlit("require");
    reveal_strlit("using");
    reveal_strlit("from");
    let t = trim_start(line);
    let n = word.len() as int;
    assert(t[0] == word[0]) by {
        assert(t.subrange(0, n)[0] == t[0]);
    }
    let others: Seq<Seq<char>> = seq![
        "package "@,
        "import "@,
        "#include"@,
        "include "@,
        "require "@,
        "using "@,
        "from "@,
        "//"@,
        "#"@,
        "/*"@,
        "*"@,
        "<!--"@,
        "--"@,
    ];
    assert forall|j: int| 0 <= j < others.len() implies !starts_with(t, #[trigger] others[j]) by {
        let p = others[j];
        if p[0] != word[0] {
            lemma_differs_at(t, p, 0);
        } else if p[1] != word[1] {
            assert(t[1] == word[1]) by {
                assert(t.subrange(0, n)[1] == t[1]);
            }
            lemma_differs_at(t, p, 1);
        } else {
            assert(p.len() == n + 1 && p[n] == ' ');
            lemma_differs_at(t, p, n);
        }
    }
    assert(!starts_with(t, others[0]));
    assert(!starts_with(t, others[1]));
    assert(!starts_with(t, others[2]));
    assert(!starts_with(t, others[3]));
    assert(!starts_with(t, others[4]));
    assert(!starts_with(t, others[5]));
    assert(!starts_with(t, others[6]));
    assert(!starts_with(t, others[7]));
    assert(!starts_with(t, others[8]));
    assert(!starts_with(t, others[9]));
    assert(!starts_with(t, others[10]));
    assert(!starts_with(t, others[11]));
    assert(!starts_with(t, others[12]));
}

/// Indentation does not change a line's kind: a line and the same line
/// after any run of whitespace are classified alike.
pub proof fn law_classify_ignores_indentation(indent: Seq<char>, line: Seq<char>)
    requires
        forall|i: int| 0 <= i < indent.len() ==> is_unicode_whitespace(#[trigger] indent[i]),
    ensures
        spec_classify_line(indent + line) == spec_classify_line(line),
    decreases indent.len(),
{
    lemma_trim_start_after_indent(indent, line);
}

/// `trim_start` drops the whole indentation.
proof fn lemma_trim_start_after_indent(indent: Seq<char>, line: Seq<char>)
    requires
        forall|i: int| 0 <= i < indent.len() ==> is_unicode_whitespace(#[trigger] indent[i]),
    ensures
        leading_whitespace(indent + line) == indent.len() + leading_whitespace(line),
        trim_start(indent + line) == trim_start(line),
    decreases indent.len(),
{
    if indent.len() > 0 {
        let rest = indent.drop_first();
        assert forall|i: int| 0 <= i < rest.len() implies is_unicode_whitespace(#[trigger] rest[i]) by {
            assert(rest[i] == indent[i + 1]);
        }
        lemma_trim_start_after_indent(rest, line);
        assert((indent + line)[0] == indent[0]);
        assert((indent + line).drop_first() =~= rest + line);
    } else {
        assert(indent + line =~= line);
    }
    lemma_leading_whitespace_bounded(line);
    let k = leading_whitespace(line) as int;
    let whole = indent + line;
    assert forall|i: int| 0 <= i < line.len() - k implies #[trigger] whole.skip(indent.len() + k)[i]
        == line.skip(k)[i] by {
        assert(whole[indent.len() + k + i] == line[k + i]);
    }
    assert(whole.skip(indent.len() + k) =~= line.skip(k));
}

/// There is no more leading whitespace than characters.
proof fn lemma_leading_whitespace_bounded(s: Seq<char>)
    ensures
        leading_whitespace(s) <= s.len(),
    decreases s.len(),
{
    if s.len() > 0 {
        lemma_leading_whitespace_bounded(s.drop_first());
    }
}

} // verus!
