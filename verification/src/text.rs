//! Character-level helpers on strings, stated over their `Seq<char>` views.
use vstd::prelude::*;
use vstd::string::*;

verus! {

/// A string option taken by its characters.
pub open spec fn opt_text(o: Option<String>) -> Option<Seq<char>> {
    match o {
        Some(s) => Some(s@),
        None => None,
    }
}

/// `a` and `b` hold the same characters.
pub fn str_eq(a: &str, b: &str) -> (r: bool)
    ensures
        r == (a@ == b@),
{
    let n: usize = a.unicode_len();
    let m: usize = b.unicode_len();
    if n != m {
        return false;
    }
    let mut i: usize = 0;
    while i < n
        invariant
            n == a@.len(),
            m == b@.len(),
            n == m,
            i <= n,
            forall|j: int| 0 <= j < i ==> a@[j] == b@[j],
        decreases n - i,
    {
        if a.get_char(i) != b.get_char(i) {
            return false;
        }
        i = i + 1;
    }
    assert(a@ =~= b@);
    true
}

/// `s` ends with `suffix`.
pub open spec fn has_suffix(s: Seq<char>, suffix: Seq<char>) -> bool {
    suffix.len() <= s.len() && s.subrange(s.len() - suffix.len(), s.len() as int) == suffix
}

/// Whether `s` ends with `suffix`.
pub fn ends_with(s: &str, suffix: &str) -> (r: bool)
    ensures
        r == has_suffix(s@, suffix@),
{
    let n: usize = s.unicode_len();
    let m: usize = suffix.unicode_len();
    if m > n {
        return false;
    }
    let off: usize = n - m;
    let mut i: usize = 0;
    while i < m
        invariant
            n == s@.len(),
            m == suffix@.len(),
            m <= n,
            off == n - m,
            i <= m,
            forall|j: int| 0 <= j < i ==> s@[off + j] == suffix@[j],
        decreases m - i,
    {
        if s.get_char(off + i) != suffix.get_char(i) {
            assert(s@.subrange(off as int, n as int)[i as int] != suffix@[i as int]);
            return false;
        }
        i = i + 1;
    }
    assert(s@.subrange(off as int, n as int) =~= suffix@);
    true
}

/// A character with the Unicode `White_Space` property, the set that
/// `str::trim` removes.
pub open spec fn is_white_space(c: char) -> bool {
    let u: u32 = c as u32;
    (0x9 <= u && u <= 0xD) || u == 0x20 || u == 0x85 || u == 0xA0 || u == 0x1680 || (0x2000 <= u
        && u <= 0x200A) || u == 0x2028 || u == 0x2029 || u == 0x202F || u == 0x205F || u == 0x3000
}

/// The white-space characters: tab, line feed, vertical tab, form feed,
/// carriage return, space, next line, no-break space, ogham space mark, the
/// spaces from en quad to hair space, line and paragraph separator, narrow
/// no-break space, medium mathematical space and ideographic space.
pub proof fn lemma_white_space_chars(c: char)
    ensures
        is_white_space(c) <==> (c == '\t' || c == '\n' || c == '\u{b}' || c == '\u{c}' || c
            == '\r' || c == ' ' || c == '\u{85}' || c == '\u{a0}' || c == '\u{1680}' || ('\u{2000}'
            <= c && c <= '\u{200a}') || c == '\u{2028}' || c == '\u{2029}' || c == '\u{202f}'
            || c == '\u{205f}' || c == '\u{3000}'),
{
}

/// Whether `c` has the Unicode `White_Space` property.
pub fn char_is_white_space(c: char) -> (r: bool)
    ensures
        r == is_white_space(c),
{
    let u: u32 = c as u32;
    (0x9 <= u && u <= 0xD) || u == 0x20 || u == 0x85 || u == 0xA0 || u == 0x1680 || (0x2000 <= u
        && u <= 0x200A) || u == 0x2028 || u == 0x2029 || u == 0x202F || u == 0x205F || u == 0x3000
}

/// The first index at or after `i` that does not hold white space.
pub open spec fn skip_white_from(s: Seq<char>, i: int) -> int
    decreases s.len() - i,
{
    if 0 <= i < s.len() && is_white_space(s[i]) {
        skip_white_from(s, i + 1)
    } else {
        i
    }
}

/// The end of `s[lo..j]` once trailing white space is removed.
pub open spec fn back_white_from(s: Seq<char>, lo: int, j: int) -> int
    decreases j - lo,
{
    if lo < j && j <= s.len() && is_white_space(s[j - 1]) {
        back_white_from(s, lo, j - 1)
    } else {
        j
    }
}

/// Where the text of `s` without leading white space starts.
pub open spec fn trim_start_index(s: Seq<char>) -> int {
    skip_white_from(s, 0)
}

/// Where the text of `s` without trailing white space ends.
pub open spec fn trim_end_index(s: Seq<char>) -> int {
    back_white_from(s, trim_start_index(s), s.len() as int)
}

/// `s` without leading and trailing white space, as `str::trim` gives it.
pub open spec fn trimmed(s: Seq<char>) -> Seq<char> {
    s.subrange(trim_start_index(s), trim_end_index(s))
}

proof fn lemma_skip_white_bounds(s: Seq<char>, i: int)
    requires
        0 <= i <= s.len(),
    ensures
        i <= skip_white_from(s, i) <= s.len(),
    decreases s.len() - i,
{
    if i < s.len() && is_white_space(s[i]) {
        lemma_skip_white_bounds(s, i + 1);
    }
}

proof fn lemma_back_white_bounds(s: Seq<char>, lo: int, j: int)
    requires
        0 <= lo <= j <= s.len(),
    ensures
        lo <= back_white_from(s, lo, j) <= j,
    decreases j - lo,
{
    if lo < j && is_white_space(s[j - 1]) {
        lemma_back_white_bounds(s, lo, j - 1);
    }
}

/// Skipping white space from `i` stops at the first position `k` that does
/// not hold white space.
pub proof fn lemma_skip_white_to(s: Seq<char>, i: int, k: int)
    requires
        0 <= i <= k < s.len(),
        forall|j: int| i <= j < k ==> is_white_space(#[trigger] s[j]),
        !is_white_space(s[k]),
    ensures
        skip_white_from(s, i) == k,
    decreases k - i,
{
    if i < k {
        lemma_skip_white_to(s, i + 1, k);
    }
}

/// Dropping trailing white space from `s[lo..j]` stops right after the last
/// position before `j` that does not hold white space.
pub proof fn lemma_back_white_to(s: Seq<char>, lo: int, j: int, k: int)
    requires
        0 <= lo < k <= j <= s.len(),
        !is_white_space(s[k - 1]),
        forall|m: int| k <= m < j ==> is_white_space(#[trigger] s[m]),
    ensures
        back_white_from(s, lo, j) == k,
    decreases j - k,
{
    if j > k {
        lemma_back_white_to(s, lo, j - 1, k);
    }
}

/// Trimming removes exactly the white space around the text: for every
/// white-space prefix and suffix around a text that neither begins nor ends
/// with white space, the trimmed line is that text.
pub proof fn lemma_trimmed_of_formed(pre: Seq<char>, mid: Seq<char>, post: Seq<char>)
    requires
        forall|i: int| 0 <= i < pre.len() ==> is_white_space(#[trigger] pre[i]),
        forall|i: int| 0 <= i < post.len() ==> is_white_space(#[trigger] post[i]),
        mid.len() > 0,
        !is_white_space(mid[0]),
        !is_white_space(mid.last()),
    ensures
        trimmed(pre + mid + post) == mid,
{
    let line = pre + mid + post;
    let a = pre.len() as int;
    let b = (pre.len() + mid.len()) as int;
    assert forall|j: int| 0 <= j < a implies is_white_space(#[trigger] line[j]) by {
        assert(line[j] == pre[j]);
    }
    assert(line[a] == mid[0]);
    lemma_skip_white_to(line, 0, a);
    assert(line[b - 1] == mid.last());
    assert forall|m: int| b <= m < line.len() implies is_white_space(#[trigger] line[m]) by {
        assert(line[m] == post[m - b]);
    }
    lemma_back_white_to(line, a, line.len() as int, b);
    assert(trimmed(line) =~= mid);
}

/// A line of white space only trims to nothing.
pub proof fn lemma_trimmed_blank(s: Seq<char>)
    requires
        forall|i: int| 0 <= i < s.len() ==> is_white_space(#[trigger] s[i]),
    ensures
        trimmed(s).len() == 0,
{
    lemma_trim_bounds(s);
    let a = trim_start_index(s);
    if a < s.len() {
        lemma_skip_white_past(s, 0);
    }
}

proof fn lemma_skip_white_past(s: Seq<char>, i: int)
    requires
        0 <= i <= s.len(),
        forall|j: int| 0 <= j < s.len() ==> is_white_space(#[trigger] s[j]),
    ensures
        skip_white_from(s, i) == s.len(),
    decreases s.len() - i,
{
    if i < s.len() {
        lemma_skip_white_past(s, i + 1);
    }
}

/// The bounds of the trimmed text: `0 <= start <= end <= len`.
pub proof fn lemma_trim_bounds(s: Seq<char>)
    ensures
        0 <= trim_start_index(s) <= trim_end_index(s) <= s.len(),
{
    lemma_skip_white_bounds(s, 0);
    lemma_back_white_bounds(s, trim_start_index(s), s.len() as int);
}

/// The character positions of the trimmed text of `s`.
pub fn trim_bounds(s: &str) -> (r: (usize, usize))
    ensures
        r.0 == trim_start_index(s@),
        r.1 == trim_end_index(s@),
        r.0 <= r.1 <= s@.len(),
{
    let n: usize = s.unicode_len();
    let mut a: usize = 0;
    while a < n
        invariant
            n == s@.len(),
            a <= n,
            skip_white_from(s@, a as int) == skip_white_from(s@, 0),
        ensures
            a <= n,
            skip_white_from(s@, a as int) == skip_white_from(s@, 0),
            a == n || !is_white_space(s@[a as int]),
        decreases n - a,
    {
        if !char_is_white_space(s.get_char(a)) {
            break;
        }
        a = a + 1;
    }
    assert(skip_white_from(s@, a as int) == a as int);
    let mut b: usize = n;
    while b > a
        invariant
            n == s@.len(),
            a <= b <= n,
            a == trim_start_index(s@),
            back_white_from(s@, a as int, b as int) == back_white_from(s@, a as int, n as int),
        ensures
            a <= b <= n,
            back_white_from(s@, a as int, b as int) == back_white_from(s@, a as int, n as int),
            b == a || !is_white_space(s@[b - 1]),
        decreases b - a,
    {
        if !char_is_white_space(s.get_char(b - 1)) {
            break;
        }
        b = b - 1;
    }
    assert(back_white_from(s@, a as int, b as int) == b as int);
    (a, b)
}

} // verus!
