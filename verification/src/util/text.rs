//! Text building blocks: characters of a string, prefixes, decimal numbers,
//! lossy UTF-8 decoding and the whitespace test of `str::trim_start`.

use vstd::prelude::*;

verus! {

/// `s` begins with `p`.
pub open spec fn starts_with(s: Seq<char>, p: Seq<char>) -> bool {
    p.len() <= s.len() && s.subrange(0, p.len() as int) == p
}

/// The `White_Space` property of Unicode, which `char::is_whitespace` tests.
pub open spec fn is_unicode_whitespace(c: char) -> bool {
    let u = c as u32;
    ||| 0x9 <= u <= 0xD
    ||| u == 0x20
    ||| u == 0x85
    ||| u == 0xA0
    ||| u == 0x1680
    ||| 0x2000 <= u <= 0x200A
    ||| u == 0x2028
    ||| u == 0x2029
    ||| u == 0x202F
    ||| u == 0x205F
    ||| u == 0x3000
}

/// Number of leading whitespace characters of `s`.
pub open spec fn leading_whitespace(s: Seq<char>) -> nat
    decreases s.len(),
{
    if s.len() == 0 {
        0
    } else if is_unicode_whitespace(s[0]) {
        1 + leading_whitespace(s.drop_first())
    } else {
        0
    }
}

/// `s` without its leading whitespace, as `str::trim_start` gives it.
pub open spec fn trim_start(s: Seq<char>) -> Seq<char> {
    s.skip(leading_whitespace(s) as int)
}

/// The character of a decimal digit.
pub open spec fn digit_char(d: nat) -> char {
    if d == 0 { '0' }
    else if d == 1 { '1' }
    else if d == 2 { '2' }
    else if d == 3 { '3' }
    else if d == 4 { '4' }
    else if d == 5 { '5' }
    else if d == 6 { '6' }
    else if d == 7 { '7' }
    else if d == 8 { '8' }
    else { '9' }
}

/// The decimal notation of `n`, without leading zeros.
pub open spec fn decimal(n: nat) -> Seq<char>
    decreases n,
{
    if n < 10 {
        seq![digit_char(n)]
    } else {
        decimal(n / 10).push(digit_char(n % 10))
    }
}

/// `String::push`.
#[verifier::external_body]
pub(crate) fn push_char(s: &mut String, c: char)
    ensures
        final(s)@ == old(s)@.push(c),
{
    s.push(c)
}

/// `char::is_whitespace`: true exactly for the characters with Unicode's
/// `White_Space` property, as its documentation says.
#[verifier::external_body]
pub(crate) fn char_is_whitespace(c: char) -> (r: bool)
    ensures
        r == is_unicode_whitespace(c),
{
    c.is_whitespace()
}

/// The characters of `s`, in order.
pub fn chars_of(s: &str) -> (r: Vec<char>)
    ensures
        r@ == s@,
{
    let mut v: Vec<char> = Vec::new();
    for c in it: s.chars()
        invariant
            v@ == it.seq().take(it.index() as int),
    {
        v.push(c);
    }
    v
}

/// The digit `d` as a character.
fn digit(d: u64) -> (c: char)
    requires
        d < 10,
    ensures
        c == digit_char(d as nat),
{
    if d == 0 { '0' }
    else if d == 1 { '1' }
    else if d == 2 { '2' }
    else if d == 3 { '3' }
    else if d == 4 { '4' }
    else if d == 5 { '5' }
    else if d == 6 { '6' }
    else if d == 7 { '7' }
    else if d == 8 { '8' }
    else { '9' }
}

/// The decimal notation of `n`.
pub fn decimal_string(n: u64) -> (s: String)
    ensures
        s@ == decimal(n as nat),
    decreases n,
{
    if n < 10 {
        let mut s = String::new();
        push_char(&mut s, digit(n));
        s
    } else {
        let mut s = decimal_string(n / 10);
        push_char(&mut s, digit(n % 10));
        s
    }
}

/// The concatenation of `a` and `b`.
pub fn joined(a: &str, b: &str) -> (r: String)
    ensures
        r@ == a@ + b@,
{
    let mut s = String::from_str(a);
    s.append(b);
    s
}

/// Whether `a` and `b` are the same text.
pub fn same_text(a: &str, b: &str) -> (r: bool)
    ensures
        r == (a@ == b@),
{
    let ca = chars_of(a);
    let cb = chars_of(b);
    if ca.len() != cb.len() {
        return false;
    }
    let mut i: usize = 0;
    while i < ca.len()
        invariant
            i <= ca.len(),
            ca.len() == cb.len(),
            ca@ == a@,
            cb@ == b@,
            forall|j: int| 0 <= j < i ==> ca@[j] == cb@[j],
        decreases ca.len() - i,
    {
        if ca[i] != cb[i] {
            return false;
        }
        i = i + 1;
    }
    assert(ca@ =~= cb@);
    true
}

/// Whether the characters of `chars` from `start` on begin with `prefix`.
pub fn starts_with_at(chars: &Vec<char>, start: usize, prefix: &str) -> (r: bool)
    requires
        start <= chars.len(),
    ensures
        r == starts_with(chars@.skip(start as int), prefix@),
{
    let p = chars_of(prefix);
    if p.len() > chars.len() - start {
        return false;
    }
    let mut i: usize = 0;
    while i < p.len()
        invariant
            i <= p.len(),
            p@ == prefix@,
            start + p.len() <= chars.len(),
            forall|j: int| 0 <= j < i ==> chars@[start + j] == p@[j],
        decreases p.len() - i,
    {
        if chars[start + i] != p[i] {
            assert(chars@.skip(start as int).subrange(0, p.len() as int)[i as int] != p@[i as int]);
            return false;
        }
        i = i + 1;
    }
    assert(chars@.skip(start as int).subrange(0, p.len() as int) =~= p@);
    true
}

/// The index of the first character of `chars` that is not whitespace, or its length.
pub fn skip_whitespace(chars: &Vec<char>) -> (k: usize)
    ensures
        k == leading_whitespace(chars@),
        k <= chars.len(),
{
    let mut i: usize = 0;
    assert(chars@.skip(0) =~= chars@);
    while i < chars.len()
        invariant
            i <= chars.len(),
            leading_whitespace(chars@) == i + leading_whitespace(chars@.skip(i as int)),
        decreases chars.len() - i,
    {
        if !char_is_whitespace(chars[i]) {
            assert(chars@.skip(i as int)[0] == chars@[i as int]);
            return i;
        }
        assert(chars@.skip(i as int).drop_first() =~= chars@.skip(i + 1));
        i = i + 1;
    }
    assert(chars@.skip(i as int).len() == 0);
    i
}


/// `s` without the copies of `c` at its end (`str::trim_end_matches` with a character).
pub open spec fn trim_end_char(s: Seq<char>, c: char) -> Seq<char>
    decreases s.len(),
{
    if s.len() > 0 && s.last() == c {
        trim_end_char(s.drop_last(), c)
    } else {
        s
    }
}

/// The text of `bytes` as `String::from_utf8_lossy` decodes it: invalid sequences
/// become U+FFFD. A function of the bytes alone.
pub uninterp spec fn utf8_lossy(bytes: Seq<u8>) -> Seq<char>;

/// `String::from_utf8_lossy`, made an owned `String`.
#[verifier::external_body]
pub(crate) fn decode_lossy(bytes: &[u8]) -> (s: String)
    ensures
        s@ == utf8_lossy(bytes@),
{
    String::from_utf8_lossy(bytes).into_owned()
}

/// The number of characters left in `chars.take(end)` once the copies of `c`
/// at its end are removed.
fn trimmed_end(chars: &Vec<char>, end: usize, c: char) -> (k: usize)
    requires
        end <= chars.len(),
    ensures
        k <= end,
        chars@.take(k as int) == trim_end_char(chars@.take(end as int), c),
{
    let mut k = end;
    while k > 0 && chars[k - 1] == c
        invariant
            k <= end <= chars.len(),
            trim_end_char(chars@.take(end as int), c) == trim_end_char(chars@.take(k as int), c),
        decreases k,
    {
        assert(chars@.take(k as int).drop_last() =~= chars@.take(k - 1));
        k = k - 1;
    }
    k
}

/// `s.trim_end_matches('\n').trim_end_matches('\r')`: a line without its terminator.
pub fn trim_line_end(s: &str) -> (r: String)
    ensures
        r@ == trim_end_char(trim_end_char(s@, '\n'), '\r'),
{
    let chars = chars_of(s);
    assert(chars@.take(chars@.len() as int) =~= chars@);
    let k1 = trimmed_end(&chars, chars.len(), '\n');
    let k2 = trimmed_end(&chars, k1, '\r');
    let r = s.substring_char(0, k2);
    assert(r@ =~= chars@.take(k2 as int));
    String::from_str(r)
}

} // verus!
