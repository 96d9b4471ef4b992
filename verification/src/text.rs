//! Text scanning over sequences of characters.

use vstd::prelude::*;
use vstd::string::*;

verus! {

/// `pat` occurs in `text` starting at position `i`.
pub open spec fn occurs_at(pat: Seq<char>, text: Seq<char>, i: int) -> bool {
    &&& 0 <= i
    &&& i + pat.len() <= text.len()
    &&& text.subrange(i, i + pat.len()) == pat
}

/// `pat` occurs somewhere in `text` (case-sensitive).
pub open spec fn is_substring(pat: Seq<char>, text: Seq<char>) -> bool {
    exists|i: int| occurs_at(pat, text, i)
}

/// The characters of a string slice, in order.
pub fn chars_of(s: &str) -> (v: Vec<char>)
    ensures
        v@ == s@,
{
    let n: usize = s.unicode_len();
    let mut v: Vec<char> = Vec::new();
    let mut i: usize = 0;
    while i < n
        invariant
            n == s@.len(),
            i <= n,
            v@ == s@.take(i as int),
        decreases n - i,
    {
        let c: char = s.get_char(i);
        v.push(c);
        i = i + 1;
    }
    v
}

/// Whether `pat` stands in `text` at position `i`.
pub fn matches_at(pat: &Vec<char>, text: &Vec<char>, i: usize) -> (b: bool)
    ensures
        b == occurs_at(pat@, text@, i as int),
{
    if pat.len() > text.len() || i > text.len() - pat.len() {
        return false;
    }
    let mut k: usize = 0;
    while k < pat.len()
        invariant
            k <= pat.len(),
            i + pat.len() <= text.len(),
            forall|j: int| 0 <= j < k ==> text@[i + j] == pat@[j],
        decreases pat.len() - k,
    {
        if text[i + k] != pat[k] {
            proof {
                assert(text@.subrange(i as int, i + pat@.len())[k as int] == text@[i + k]);
            }
            return false;
        }
        k = k + 1;
    }
    proof {
        assert(text@.subrange(i as int, i + pat@.len()) =~= pat@);
    }
    true
}

/// Case-sensitive substring test.
pub fn contains(text: &Vec<char>, pat: &Vec<char>) -> (b: bool)
    ensures
        b == is_substring(pat@, text@),
{
    if pat.len() > text.len() {
        return false;
    }
    let last: usize = text.len() - pat.len();
    let mut i: usize = 0;
    while i < last
        invariant
            last == text.len() - pat.len(),
            i <= last,
            forall|j: int| 0 <= j < i ==> !occurs_at(pat@, text@, j),
        decreases last - i,
    {
        if matches_at(pat, text, i) {
            return true;
        }
        i = i + 1;
    }
    matches_at(pat, text, last)
}

/// White space as Unicode defines it.
pub open spec fn is_space(c: char) -> bool {
    let u = c as u32;
    (0x09 <= u && u <= 0x0d) || u == 0x20 || u == 0x85 || u == 0xa0 || u == 0x1680 || (0x2000 <= u
        && u <= 0x200a) || u == 0x2028 || u == 0x2029 || u == 0x202f || u == 0x205f || u == 0x3000
}

pub fn is_space_char(c: char) -> (b: bool)
    ensures
        b == is_space(c),
{
    let u: u32 = c as u32;
    (0x09 <= u && u <= 0x0d) || u == 0x20 || u == 0x85 || u == 0xa0 || u == 0x1680 || (0x2000 <= u
        && u <= 0x200a) || u == 0x2028 || u == 0x2029 || u == 0x202f || u == 0x205f || u == 0x3000
}

/// First position in `[lo, hi)` that holds no white space, or `hi`.
pub open spec fn solid_start(s: Seq<char>, lo: int, hi: int) -> int
    decreases hi - lo,
{
    if lo >= hi {
        hi
    } else if is_space(s[lo]) {
        solid_start(s, lo + 1, hi)
    } else {
        lo
    }
}

/// End of the last stretch without white space in `[lo, hi)`, or `lo`.
pub open spec fn solid_end(s: Seq<char>, lo: int, hi: int) -> int
    decreases hi - lo,
{
    if lo >= hi {
        lo
    } else if is_space(s[hi - 1]) {
        solid_end(s, lo, hi - 1)
    } else {
        hi
    }
}

/// First position in `[lo, hi)` that holds white space, or `hi`.
pub open spec fn space_start(s: Seq<char>, lo: int, hi: int) -> int
    decreases hi - lo,
{
    if lo >= hi {
        hi
    } else if is_space(s[lo]) {
        lo
    } else {
        space_start(s, lo + 1, hi)
    }
}

/// `s[lo..hi]` without the white space at either end.
pub open spec fn trimmed(s: Seq<char>, lo: int, hi: int) -> Seq<char> {
    let a = solid_start(s, lo, hi);
    s.subrange(a, solid_end(s, a, hi))
}

/// Position of the first line feed at or after `from`, or the length.
pub open spec fn line_end(s: Seq<char>, from: int) -> int
    decreases s.len() - from,
{
    if from >= s.len() {
        s.len() as int
    } else if s[from] == '\n' {
        from
    } else {
        line_end(s, from + 1)
    }
}

/// Some line of `s` that starts at or after `from`, a line start, is
/// `tag` once its surrounding white space is taken off.
pub open spec fn has_line_from(s: Seq<char>, tag: Seq<char>, from: int) -> bool
    decreases s.len() - from,
{
    if from < 0 || from >= s.len() {
        false
    } else {
        let e = line_end(s, from);
        trimmed(s, from, e) == tag || (from <= e < s.len() && has_line_from(s, tag, e + 1))
    }
}

/// Some line of `s`, white space at its ends set aside, equals `tag`.
pub open spec fn has_line(s: Seq<char>, tag: Seq<char>) -> bool {
    has_line_from(s, tag, 0)
}

/// Start of the text of `[lo, hi)` once leading white space is skipped.
pub(crate) fn skip_spaces(text: &Vec<char>, lo: usize, hi: usize) -> (a: usize)
    requires
        lo <= hi <= text.len(),
    ensures
        a == solid_start(text@, lo as int, hi as int),
        lo <= a <= hi,
{
    let mut a: usize = lo;
    while a < hi && is_space_char(text[a])
        invariant
            lo <= a <= hi <= text.len(),
            solid_start(text@, lo as int, hi as int) == solid_start(text@, a as int, hi as int),
        decreases hi - a,
    {
        a = a + 1;
    }
    a
}

/// End of the text of `[lo, hi)` once trailing white space is dropped.
pub(crate) fn drop_spaces(text: &Vec<char>, lo: usize, hi: usize) -> (b: usize)
    requires
        lo <= hi <= text.len(),
    ensures
        b == solid_end(text@, lo as int, hi as int),
        lo <= b <= hi,
{
    let mut b: usize = hi;
    while lo < b && is_space_char(text[b - 1])
        invariant
            lo <= b <= hi <= text.len(),
            solid_end(text@, lo as int, hi as int) == solid_end(text@, lo as int, b as int),
        decreases b - lo,
    {
        b = b - 1;
    }
    b
}

/// End of the run without white space that starts at `lo`.
pub(crate) fn skip_solid(text: &Vec<char>, lo: usize, hi: usize) -> (b: usize)
    requires
        lo <= hi <= text.len(),
    ensures
        b == space_start(text@, lo as int, hi as int),
        lo <= b <= hi,
{
    let mut b: usize = lo;
    while b < hi && !is_space_char(text[b])
        invariant
            lo <= b <= hi <= text.len(),
            space_start(text@, lo as int, hi as int) == space_start(text@, b as int, hi as int),
        decreases hi - b,
    {
        b = b + 1;
    }
    b
}

/// End of the line that starts at `from`.
pub(crate) fn find_line_end(text: &Vec<char>, from: usize) -> (e: usize)
    requires
        from <= text.len(),
    ensures
        e == line_end(text@, from as int),
        from <= e <= text.len(),
{
    let mut e: usize = from;
    while e < text.len() && text[e] != '\n'
        invariant
            from <= e <= text.len(),
            line_end(text@, from as int) == line_end(text@, e as int),
        decreases text.len() - e,
    {
        e = e + 1;
    }
    e
}

/// Whether `text[lo..hi]` is exactly `pat`.
pub(crate) fn range_equals(text: &Vec<char>, lo: usize, hi: usize, pat: &Vec<char>) -> (b: bool)
    requires
        lo <= hi <= text.len(),
    ensures
        b == (text@.subrange(lo as int, hi as int) == pat@),
{
    if hi - lo != pat.len() {
        return false;
    }
    let r: bool = matches_at(pat, text, lo);
    r
}

/// Whether some line of `text`, trimmed, equals `tag`.
pub fn contains_line(text: &Vec<char>, tag: &Vec<char>) -> (b: bool)
    ensures
        b == has_line(text@, tag@),
{
    let mut from: usize = 0;
    while from < text.len()
        invariant
            from <= text.len(),
            has_line(text@, tag@) == has_line_from(text@, tag@, from as int),
        decreases text.len() - from,
    {
        let e: usize = find_line_end(text, from);
        let a: usize = skip_spaces(text, from, e);
        let b: usize = drop_spaces(text, a, e);
        if range_equals(text, a, b, tag) {
            return true;
        }
        if e == text.len() {
            return false;
        }
        from = e + 1;
    }
    false
}

/// `[i, j)` is a line of `s`: it starts at the start of the text or
/// behind a line feed, holds no line feed, and ends at a line feed or at
/// the end of the text. Nothing follows a line feed that ends the text.
pub open spec fn is_line(s: Seq<char>, i: int, j: int) -> bool {
    &&& 0 <= i <= j <= s.len()
    &&& i < s.len()
    &&& (i == 0 || s[i - 1] == '\n')
    &&& (j == s.len() || s[j] == '\n')
    &&& forall|k: int| i <= k < j ==> s[k] != '\n'
}

/// Where the line that starts at `from` ends: nothing before is a line
/// feed, and what stands there is one unless the text is over.
pub proof fn lemma_line_end_is_first_feed(s: Seq<char>, from: int)
    requires
        0 <= from <= s.len(),
    ensures
        from <= line_end(s, from) <= s.len(),
        forall|k: int| from <= k < line_end(s, from) ==> s[k] != '\n',
        line_end(s, from) < s.len() ==> s[line_end(s, from)] == '\n',
    decreases s.len() - from,
{
    if from < s.len() && s[from] != '\n' {
        lemma_line_end_is_first_feed(s, from + 1);
    }
}

/// A line that starts at or after the line start `from` is found by the
/// search from `from`.
pub proof fn lemma_line_is_found(s: Seq<char>, tag: Seq<char>, from: int, i: int, j: int)
    requires
        0 <= from <= i,
        from == 0 || s[from - 1] == '\n',
        is_line(s, i, j),
        trimmed(s, i, j) == tag,
    ensures
        has_line_from(s, tag, from),
    decreases s.len() - from,
{
    let e = line_end(s, from);
    lemma_line_end_is_first_feed(s, from);
    if i == from {
        if j < e {
            assert(s[j] == '\n');
        } else if e < j {
            assert(s[e] == '\n');
        }
        assert(j == e);
    } else {
        assert(s[i - 1] == '\n');
        if i - 1 < e {
            assert(s[i - 1] != '\n');
        }
        assert(e + 1 <= i);
        lemma_line_is_found(s, tag, e + 1, i, j);
    }
}

/// What the search from the line start `from` finds is a line.
pub proof fn lemma_found_is_line(s: Seq<char>, tag: Seq<char>, from: int) -> (r: (int, int))
    requires
        0 <= from,
        from == 0 || s[from - 1] == '\n',
        has_line_from(s, tag, from),
    ensures
        from <= r.0,
        is_line(s, r.0, r.1),
        trimmed(s, r.0, r.1) == tag,
    decreases s.len() - from,
{
    let e = line_end(s, from);
    lemma_line_end_is_first_feed(s, from);
    if trimmed(s, from, e) == tag {
        (from, e)
    } else {
        lemma_found_is_line(s, tag, e + 1)
    }
}

/// The search by lines finds `tag` exactly when some line of the text,
/// white space at its ends set aside, is `tag`.
pub proof fn lemma_has_line_means_some_line(s: Seq<char>, tag: Seq<char>)
    ensures
        has_line(s, tag) <==> exists|i: int, j: int|
            is_line(s, i, j) && #[trigger] trimmed(s, i, j) == tag,
{
    if has_line(s, tag) {
        let r = lemma_found_is_line(s, tag, 0);
        assert(is_line(s, r.0, r.1) && trimmed(s, r.0, r.1) == tag);
    }
    if exists|i: int, j: int| is_line(s, i, j) && #[trigger] trimmed(s, i, j) == tag {
        let (i, j) = choose|i: int, j: int| is_line(s, i, j) && #[trigger] trimmed(s, i, j) == tag;
        lemma_line_is_found(s, tag, 0, i, j);
    }
}

} // verus!
