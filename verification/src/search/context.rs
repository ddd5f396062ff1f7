//! Context lines around a match.
//!
//! The extractor keeps the file's bytes as they were searched, together with
//! the byte offset at which each line starts; a line is decoded only when it is
//! asked for. Files above `MAX_CONTEXT_FILE_SIZE` get no context: their matches
//! are still reported, without surrounding lines.

use vstd::prelude::*;
use vstd::slice::slice_subrange;

use crate::error::SearchResult;
use crate::util::text::{decode_lossy, trim_end_char, trim_line_end, utf8_lossy};

verus! {

broadcast use vstd::slice::group_slice_axioms;

/// Files larger than this (10 MiB) get no context lines.
pub const MAX_CONTEXT_FILE_SIZE: usize = 10 * 1024 * 1024;

/// The offsets at which the lines of `bytes` start, among the first `k` bytes:
/// 0, then one past each newline that is not the last byte.
pub open spec fn line_starts(bytes: Seq<u8>, k: nat) -> Seq<usize>
    decreases k,
{
    if k == 0 {
        seq![0usize]
    } else {
        let prev = line_starts(bytes, (k - 1) as nat);
        let i = k - 1;
        if bytes[i] == 10u8 && i + 1 < bytes.len() {
            prev.push((i + 1) as usize)
        } else {
            prev
        }
    }
}

/// The offsets at which the lines of `bytes` start.
pub open spec fn spec_line_offsets(bytes: Seq<u8>) -> Seq<usize> {
    line_starts(bytes, bytes.len())
}

/// Line `i` (counted from 0) of `bytes`, decoded leniently, without its
/// line terminator.
pub open spec fn spec_line(bytes: Seq<u8>, i: int) -> Seq<char> {
    let offsets = spec_line_offsets(bytes);
    let start = offsets[i] as int;
    let end = if i + 1 < offsets.len() { offsets[i + 1] as int } else { bytes.len() as int };
    trim_end_char(trim_end_char(utf8_lossy(bytes.subrange(start, end)), '\n'), '\r')
}

/// The number of lines of `bytes` (an empty file has one, empty, line).
pub open spec fn line_count(bytes: Seq<u8>) -> int {
    spec_line_offsets(bytes).len() as int
}

/// Lines `from` (inclusive) to `to` (exclusive) of `bytes`.
pub open spec fn spec_lines(bytes: Seq<u8>, from: int, to: int) -> Seq<Seq<char>> {
    Seq::new((to - from) as nat, |j: int| spec_line(bytes, from + j))
}

/// The context of line `line_number` (counted from 1): up to `n` lines before
/// and up to `n` lines after it. No context for line 0, for a line past the
/// end, or where the extractor holds no text.
pub open spec fn spec_extract(text: Option<Seq<u8>>, line_number: usize, n: usize) -> (Seq<Seq<char>>, Seq<Seq<char>>) {
    match text {
        None => (Seq::empty(), Seq::empty()),
        Some(bytes) => {
            let idx = line_number - 1;
            if line_number == 0 || idx >= line_count(bytes) {
                (Seq::empty(), Seq::empty())
            } else {
                let before_start = if idx >= n { idx - n } else { 0 };
                let after_end = if idx + 1 + n <= line_count(bytes) {
                    idx + 1 + n
                } else {
                    line_count(bytes)
                };
                (spec_lines(bytes, before_start, idx), spec_lines(bytes, idx + 1, after_end))
            }
        },
    }
}

/// The text of a list of strings.
pub open spec fn strings_view(v: Seq<String>) -> Seq<Seq<char>> {
    v.map_values(|s: String| s@)
}

/// Extracts context lines from the bytes of one file.
pub struct ContextExtractor<'a> {
    /// The file's bytes; `None` for a file too large to keep, or unreadable.
    data: Option<&'a [u8]>,
    /// Offset of the first byte of each line; empty when `data` is `None`.
    line_offsets: Vec<usize>,
}

impl<'a> ContextExtractor<'a> {
    /// The offsets are those of the lines of the text.
    #[verifier::type_invariant]
    spec fn wf(self) -> bool {
        match self.data {
            Some(d) => self.line_offsets@ == spec_line_offsets(d@),
            None => self.line_offsets@.len() == 0,
        }
    }

    /// The text the extractor serves lines from, if any.
    pub closed spec fn text(&self) -> Option<Seq<u8>> {
        match self.data {
            Some(d) => Some(d@),
            None => None,
        }
    }

    /// An extractor that holds no text and gives no context.
    pub fn empty() -> (e: Self)
        ensures
            e.text() is None,
    {
        ContextExtractor { data: None, line_offsets: Vec::new() }
    }

    /// An extractor over the bytes of one file. A file larger than
    /// `MAX_CONTEXT_FILE_SIZE` gives an empty extractor, so that its matches come
    /// without context. It never fails: a file that cannot be read is the
    /// caller's `empty()`.
    pub fn new(data: &'a [u8], _window_size: usize) -> (r: SearchResult<Self>)
        ensures
            r matches Ok(e) && e.text() == (if data@.len() > MAX_CONTEXT_FILE_SIZE {
                None
            } else {
                Some(data@)
            }),
    {
        if data.len() > MAX_CONTEXT_FILE_SIZE {
            return Ok(Self::empty());
        }
        let line_offsets = compute_line_offsets(data);
        Ok(ContextExtractor { data: Some(data), line_offsets })
    }

    /// Whether the extractor holds text to serve context from.
    pub fn has_text(&self) -> (b: bool)
        ensures
            b == self.text() is Some,
    {
        self.data.is_some()
    }

    /// The context of line `line_number` (counted from 1): the `n` lines before
    /// it and the `n` lines after it, fewer at the start and the end of the file.
    pub fn extract(&mut self, line_number: usize, n: usize) -> (r: (Vec<String>, Vec<String>))
        ensures
            final(self).text() == old(self).text(),
            (strings_view(r.0@), strings_view(r.1@)) == spec_extract(old(self).text(), line_number, n),
    {
        proof {
            use_type_invariant(&*self);
        }
        let bytes = match self.data {
            Some(b) => b,
            None => {
                proof {
                    assert(strings_view(Seq::<String>::empty()) =~= Seq::<Seq<char>>::empty());
                }
                return (Vec::new(), Vec::new());
            },
        };
        let count = self.line_offsets.len();
        if count == 0 || line_number == 0 {
            proof {
                assert(strings_view(Seq::<String>::empty()) =~= Seq::<Seq<char>>::empty());
            }
            return (Vec::new(), Vec::new());
        }
        let idx = line_number - 1;
        if idx >= count {
            proof {
                assert(strings_view(Seq::<String>::empty()) =~= Seq::<Seq<char>>::empty());
            }
            return (Vec::new(), Vec::new());
        }
        let before_start = if idx >= n { idx - n } else { 0 };
        let after_end = if n <= count - (idx + 1) { idx + 1 + n } else { count };
        let before = self.read_lines(bytes, before_start, idx);
        let after = self.read_lines(bytes, idx + 1, after_end);
        (before, after)
    }

    /// Lines `from` (inclusive) to `to` (exclusive) of `bytes`, the extractor's text.
    fn read_lines(&self, bytes: &[u8], from: usize, to: usize) -> (r: Vec<String>)
        requires
            self.data == Some(bytes),
            self.line_offsets@ == spec_line_offsets(bytes@),
            from <= to <= self.line_offsets@.len(),
        ensures
            strings_view(r@) == spec_lines(bytes@, from as int, to as int),
    {
        let mut out: Vec<String> = Vec::new();
        let mut i = from;
        while i < to
            invariant
                from <= i <= to <= self.line_offsets@.len(),
                self.line_offsets@ == spec_line_offsets(bytes@),
                out@.len() == i - from,
                forall|j: int| 0 <= j < out@.len() ==> #[trigger] out@[j]@ == spec_line(bytes@, from + j),
            decreases to - i,
        {
            let line = read_line(bytes, &self.line_offsets, i);
            out.push(line);
            i = i + 1;
        }
        assert(strings_view(out@) =~= spec_lines(bytes@, from as int, to as int));
        out
    }
}

/// Line `i` (counted from 0) of `bytes`, decoded leniently, without its terminator.
fn read_line(bytes: &[u8], line_offsets: &Vec<usize>, i: usize) -> (s: String)
    requires
        line_offsets@ == spec_line_offsets(bytes@),
        i < line_offsets@.len(),
    ensures
        s@ == spec_line(bytes@, i as int),
{
    proof {
        assert(bytes@.len() == bytes.len());
        lemma_line_offsets_bounded(bytes@);
    }
    let start = line_offsets[i];
    assert(i < line_offsets.len());
    let end = if i + 1 < line_offsets.len() { line_offsets[i + 1] } else { bytes.len() };
    let text = decode_lossy(slice_subrange(bytes, start, end));
    trim_line_end(text.as_str())
}

/// The offsets of a text's lines are ascending and within the text.
proof fn lemma_line_offsets_bounded(bytes: Seq<u8>)
    requires
        bytes.len() <= usize::MAX,
    ensures
        forall|i: int, j: int|
            0 <= i < j < spec_line_offsets(bytes).len() ==> spec_line_offsets(bytes)[i]
                < spec_line_offsets(bytes)[j],
        forall|i: int|
            0 <= i < spec_line_offsets(bytes).len() ==> spec_line_offsets(bytes)[i] <= bytes.len(),
        spec_line_offsets(bytes).len() >= 1,
        spec_line_offsets(bytes)[0] == 0,
{
    lemma_line_starts_bounded(bytes, bytes.len());
}

proof fn lemma_line_starts_bounded(bytes: Seq<u8>, k: nat)
    requires
        k <= bytes.len() <= usize::MAX,
    ensures
        forall|i: int, j: int|
            0 <= i < j < line_starts(bytes, k).len() ==> line_starts(bytes, k)[i] < line_starts(
                bytes,
                k,
            )[j],
        forall|i: int| 0 <= i < line_starts(bytes, k).len() ==> line_starts(bytes, k)[i] <= k,
        line_starts(bytes, k).len() >= 1,
        line_starts(bytes, k)[0] == 0,
    decreases k,
{
    if k > 0 {
        lemma_line_starts_bounded(bytes, (k - 1) as nat);
        let prev = line_starts(bytes, (k - 1) as nat);
        let cur = line_starts(bytes, k);
        assert forall|i: int, j: int| 0 <= i < j < cur.len() implies cur[i] < cur[j] by {
            if j < prev.len() {
                assert(cur[i] == prev[i] && cur[j] == prev[j]);
            } else {
                assert(cur == prev.push(k as usize));
                assert(cur[i] == prev[i]);
            }
        }
    }
}

/// The context of a line holds at most `n` lines on each side, and exactly
/// `n` on a side where the text has that many lines beyond the matched one.
pub proof fn law_context_window(bytes: Seq<u8>, line_number: usize, n: usize)
    requires
        1 <= line_number <= line_count(bytes),
    ensures
        spec_extract(Some(bytes), line_number, n).0.len() <= n,
        spec_extract(Some(bytes), line_number, n).1.len() <= n,
        line_number > n ==> spec_extract(Some(bytes), line_number, n).0.len() == n,
        line_number + n <= line_count(bytes) ==> spec_extract(Some(bytes), line_number, n).1.len() == n,
        spec_extract(Some(bytes), line_number, n).0.len() + spec_extract(Some(bytes), line_number, n).1.len()
            + 1 <= line_count(bytes),
{
}

/// The offset at which each line of `bytes` starts: 0 first, then one past
/// each newline that is not the last byte, in ascending order.
pub fn compute_line_offsets(bytes: &[u8]) -> (r: Vec<usize>)
    ensures
        r@ == spec_line_offsets(bytes@),
        r@.len() >= 1,
        r@[0] == 0,
        forall|i: int, j: int| 0 <= i < j < r@.len() ==> r@[i] < r@[j],
        forall|i: int| 0 <= i < r@.len() ==> r@[i] <= bytes@.len(),
{
    proof {
        assert(bytes@.len() == bytes.len());
        lemma_line_offsets_bounded(bytes@);
    }
    let mut offsets: Vec<usize> = Vec::new();
    offsets.push(0);
    let mut i: usize = 0;
    while i < bytes.len()
        invariant
            i <= bytes@.len(),
            offsets@ == line_starts(bytes@, i as nat),
        decreases bytes@.len() - i,
    {
        if bytes[i] == 10u8 && i + 1 < bytes.len() {
            offsets.push(i + 1);
        }
        i = i + 1;
    }
    offsets
}

} // verus!
