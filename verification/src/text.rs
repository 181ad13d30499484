//! Character-level string model and verified primitives.
//!
//! Strings are modelled as `Seq<char>`.  The spec functions here state what
//! the standard library's `trim`, `trim_matches`, `starts_with`, `ends_with`,
//! `find`, `rfind` and `contains` compute on such sequences; the executable
//! functions compute the same on a `Vec<char>` copy of a string.
use vstd::prelude::*;

verus! {

broadcast use vstd::string::group_string_axioms;

/// `char::is_whitespace`: the Unicode `White_Space` property.
pub open spec fn is_whitespace(c: char) -> bool {
    ||| ('\u{9}' <= c && c <= '\u{d}')
    ||| c == ' '
    ||| c == '\u{85}'
    ||| c == '\u{a0}'
    ||| c == '\u{1680}'
    ||| ('\u{2000}' <= c && c <= '\u{200a}')
    ||| c == '\u{2028}'
    ||| c == '\u{2029}'
    ||| c == '\u{202f}'
    ||| c == '\u{205f}'
    ||| c == '\u{3000}'
}

/// The sets of characters that the reply cleaner strips from the ends of a string.
#[derive(Clone, Copy, PartialEq, Eq, Debug)]
pub enum CharClass {
    /// `char::is_whitespace`
    Whitespace,
    /// `(` and `)`
    Parens,
    /// `.` and `!`
    EndPunct,
    /// `/`
    Slash,
}

impl CharClass {
    pub open spec fn has(self, c: char) -> bool {
        match self {
            CharClass::Whitespace => is_whitespace(c),
            CharClass::Parens => c == '(' || c == ')',
            CharClass::EndPunct => c == '.' || c == '!',
            CharClass::Slash => c == '/',
        }
    }

    pub fn test(&self, c: char) -> (b: bool)
        ensures
            b == self.has(c),
    {
        match self {
            CharClass::Whitespace => {
                ('\u{9}' <= c && c <= '\u{d}') || c == ' ' || c == '\u{85}' || c == '\u{a0}'
                    || c == '\u{1680}' || ('\u{2000}' <= c && c <= '\u{200a}') || c == '\u{2028}'
                    || c == '\u{2029}' || c == '\u{202f}' || c == '\u{205f}' || c == '\u{3000}'
            },
            CharClass::Parens => c == '(' || c == ')',
            CharClass::EndPunct => c == '.' || c == '!',
            CharClass::Slash => c == '/',
        }
    }
}

/// `s` without its leading characters of class `cls`.
pub open spec fn trim_start_class(s: Seq<char>, cls: CharClass) -> Seq<char>
    decreases s.len(),
{
    if s.len() > 0 && cls.has(s[0]) {
        trim_start_class(s.drop_first(), cls)
    } else {
        s
    }
}

/// `s` without its trailing characters of class `cls`.
pub open spec fn trim_end_class(s: Seq<char>, cls: CharClass) -> Seq<char>
    decreases s.len(),
{
    if s.len() > 0 && cls.has(s.last()) {
        trim_end_class(s.drop_last(), cls)
    } else {
        s
    }
}

/// `str::trim_matches` with a predicate for `cls`.
pub open spec fn trim_class(s: Seq<char>, cls: CharClass) -> Seq<char> {
    trim_end_class(trim_start_class(s, cls), cls)
}

/// `str::trim`.
pub open spec fn trim(s: Seq<char>) -> Seq<char> {
    trim_class(s, CharClass::Whitespace)
}

/// `p` occurs in `s` starting at index `i`.
pub open spec fn occurs_at(s: Seq<char>, p: Seq<char>, i: int) -> bool {
    0 <= i && i + p.len() <= s.len() && s.subrange(i, i + p.len()) == p
}

pub open spec fn starts_with(s: Seq<char>, p: Seq<char>) -> bool {
    occurs_at(s, p, 0)
}

pub open spec fn ends_with(s: Seq<char>, p: Seq<char>) -> bool {
    p.len() <= s.len() && occurs_at(s, p, s.len() - p.len())
}

/// The first occurrence of `p` in `s` at index `i` or later.
pub open spec fn find_from(s: Seq<char>, p: Seq<char>, i: int) -> Option<int>
    decreases s.len() + 1 - i,
{
    if i < 0 || i + p.len() > s.len() {
        None
    } else if occurs_at(s, p, i) {
        Some(i)
    } else {
        find_from(s, p, i + 1)
    }
}

/// `str::find`: the index of the first occurrence of `p` in `s`.
pub open spec fn find(s: Seq<char>, p: Seq<char>) -> Option<int> {
    find_from(s, p, 0)
}

/// The last occurrence of `p` in `s` at index `j` or earlier.
pub open spec fn rfind_from(s: Seq<char>, p: Seq<char>, j: int) -> Option<int>
    decreases j + 1,
{
    if j < 0 {
        None
    } else if occurs_at(s, p, j) {
        Some(j)
    } else {
        rfind_from(s, p, j - 1)
    }
}

/// `str::rfind`: the index of the last occurrence of `p` in `s`.
pub open spec fn rfind(s: Seq<char>, p: Seq<char>) -> Option<int> {
    if p.len() > s.len() {
        None
    } else {
        rfind_from(s, p, s.len() - p.len())
    }
}

/// `str::contains`.
pub open spec fn contains(s: Seq<char>, p: Seq<char>) -> bool {
    find(s, p) is Some
}

pub proof fn lemma_find_from_range(s: Seq<char>, p: Seq<char>, i: int)
    ensures
        find_from(s, p, i) matches Some(k) ==> i <= k && occurs_at(s, p, k),
    decreases s.len() + 1 - i,
{
    if !(i < 0 || i + p.len() > s.len()) && !occurs_at(s, p, i) {
        lemma_find_from_range(s, p, i + 1);
    }
}

pub proof fn lemma_find_range(s: Seq<char>, p: Seq<char>)
    ensures
        find(s, p) matches Some(k) ==> 0 <= k && k + p.len() <= s.len() && occurs_at(s, p, k),
{
    lemma_find_from_range(s, p, 0);
}

pub proof fn lemma_rfind_from_range(s: Seq<char>, p: Seq<char>, j: int)
    ensures
        rfind_from(s, p, j) matches Some(k) ==> k <= j && occurs_at(s, p, k),
    decreases j + 1,
{
    if j >= 0 && !occurs_at(s, p, j) {
        lemma_rfind_from_range(s, p, j - 1);
    }
}

pub proof fn lemma_rfind_range(s: Seq<char>, p: Seq<char>)
    ensures
        rfind(s, p) matches Some(k) ==> 0 <= k && k + p.len() <= s.len() && occurs_at(s, p, k),
{
    if p.len() <= s.len() {
        lemma_rfind_from_range(s, p, s.len() - p.len());
    }
}

/// Trimming from the start leaves a suffix of `s` that is empty or starts
/// with a character outside `cls`.
pub proof fn lemma_trim_start_shape(s: Seq<char>, cls: CharClass)
    ensures
        trim_start_class(s, cls).len() <= s.len(),
        trim_start_class(s, cls) == s.skip(s.len() - trim_start_class(s, cls).len()),
        trim_start_class(s, cls).len() == 0 || !cls.has(trim_start_class(s, cls)[0]),
    decreases s.len(),
{
    if s.len() > 0 && cls.has(s[0]) {
        lemma_trim_start_shape(s.drop_first(), cls);
        let r = trim_start_class(s.drop_first(), cls);
        assert(s.drop_first().skip(s.drop_first().len() - r.len()) =~= s.skip(s.len() - r.len()));
    } else {
        assert(s.skip(0) =~= s);
    }
}

/// Trimming from the end leaves a prefix of `s` that is empty or ends with
/// a character outside `cls`.
pub proof fn lemma_trim_end_shape(s: Seq<char>, cls: CharClass)
    ensures
        trim_end_class(s, cls).len() <= s.len(),
        trim_end_class(s, cls) == s.take(trim_end_class(s, cls).len() as int),
        trim_end_class(s, cls).len() == 0 || !cls.has(trim_end_class(s, cls).last()),
    decreases s.len(),
{
    if s.len() > 0 && cls.has(s.last()) {
        lemma_trim_end_shape(s.drop_last(), cls);
        let r = trim_end_class(s.drop_last(), cls);
        assert(s.drop_last().take(r.len() as int) =~= s.take(r.len() as int));
    } else {
        assert(s.take(s.len() as int) =~= s);
    }
}

/// A sequence that neither starts nor ends with a character of `cls` is its own trim.
pub proof fn lemma_trim_class_fixed(s: Seq<char>, cls: CharClass)
    requires
        s.len() == 0 || (!cls.has(s[0]) && !cls.has(s.last())),
    ensures
        trim_class(s, cls) == s,
{
}

/// Trimming twice trims no more than trimming once.
pub proof fn lemma_trim_class_idempotent(s: Seq<char>, cls: CharClass)
    ensures
        trim_class(trim_class(s, cls), cls) == trim_class(s, cls),
{
    let u = trim_start_class(s, cls);
    lemma_trim_start_shape(s, cls);
    lemma_trim_end_shape(u, cls);
    let v = trim_end_class(u, cls);
    if v.len() > 0 {
        assert(v[0] == u[0]);
    }
    lemma_trim_class_fixed(v, cls);
}

/// The characters of `s`, in order.
pub fn chars_of(s: &str) -> (v: Vec<char>)
    ensures
        v@ == s@,
{
    let mut v: Vec<char> = Vec::new();
    for c in it: s.chars()
        invariant
            v@ == it.seq().take(it.index()),
            it.seq() == s@,
    {
        v.push(c);
    }
    v
}

/// The bounds, within `[lo, hi)`, of `v[lo..hi]` trimmed of class `cls` at both ends.
pub fn trim_range(v: &Vec<char>, lo: usize, hi: usize, cls: CharClass) -> (r: (usize, usize))
    requires
        lo <= hi <= v.len(),
    ensures
        lo <= r.0 <= r.1 <= hi,
        v@.subrange(r.0 as int, r.1 as int) == trim_class(v@.subrange(lo as int, hi as int), cls),
{
    let mut a = lo;
    while a < hi && cls.test(v[a])
        invariant
            lo <= a <= hi <= v.len(),
            trim_start_class(v@.subrange(lo as int, hi as int), cls) == trim_start_class(
                v@.subrange(a as int, hi as int),
                cls,
            ),
        decreases hi - a,
    {
        assert(v@.subrange(a as int, hi as int).drop_first() =~= v@.subrange(a + 1, hi as int));
        a = a + 1;
    }
    assert(trim_start_class(v@.subrange(a as int, hi as int), cls) == v@.subrange(
        a as int,
        hi as int,
    ));
    let mut b = hi;
    while b > a && cls.test(v[b - 1])
        invariant
            lo <= a <= b <= hi <= v.len(),
            trim_end_class(v@.subrange(a as int, hi as int), cls) == trim_end_class(
                v@.subrange(a as int, b as int),
                cls,
            ),
        decreases b - a,
    {
        assert(v@.subrange(a as int, b as int).drop_last() =~= v@.subrange(a as int, b - 1));
        b = b - 1;
    }
    (a, b)
}

/// Whether `p` occurs in `v` at index `i`, wholly before `hi`.
pub fn matches_at(v: &Vec<char>, hi: usize, p: &Vec<char>, i: usize) -> (r: bool)
    requires
        hi <= v.len(),
    ensures
        r == (i + p.len() <= hi && v@.subrange(i as int, i + p.len()) == p@),
{
    if i > hi || p.len() > hi - i {
        return false;
    }
    let mut j: usize = 0;
    while j < p.len()
        invariant
            i + p.len() <= hi <= v.len(),
            j <= p.len(),
            forall|k: int| 0 <= k < j ==> v@[i + k] == p@[k],
        decreases p.len() - j,
    {
        if v[i + j] != p[j] {
            assert(v@.subrange(i as int, i + p.len())[j as int] != p@[j as int]);
            return false;
        }
        j = j + 1;
    }
    assert(v@.subrange(i as int, i + p.len()) =~= p@);
    true
}

/// `find` on `v[lo..hi]`, giving the index in `v`.
pub fn find_range(v: &Vec<char>, lo: usize, hi: usize, p: &Vec<char>) -> (r: Option<usize>)
    requires
        lo <= hi <= v.len(),
    ensures
        match find(v@.subrange(lo as int, hi as int), p@) {
            Some(k) => r == Some((lo + k) as usize),
            None => r is None,
        },
{
    let ghost s = v@.subrange(lo as int, hi as int);
    let mut i = lo;
    while i <= hi && p.len() <= hi - i
        invariant
            lo <= i,
            hi <= v.len(),
            s == v@.subrange(lo as int, hi as int),
            find(s, p@) == find_from(s, p@, i - lo),
        decreases hi + 1 - i,
    {
        let m = matches_at(v, hi, p, i);
        assert(m == occurs_at(s, p@, i - lo)) by {
            if i + p.len() <= hi {
                assert(s.subrange(i - lo, i - lo + p.len()) =~= v@.subrange(i as int, i + p.len()));
            }
        }
        if m {
            return Some(i);
        }
        if i == hi {
            assert(find_from(s, p@, i - lo + 1) is None);
            return None;
        }
        i = i + 1;
    }
    None
}

/// `rfind` on `v[lo..hi]`, giving the index in `v`.
pub fn rfind_range(v: &Vec<char>, lo: usize, hi: usize, p: &Vec<char>) -> (r: Option<usize>)
    requires
        lo <= hi <= v.len(),
    ensures
        match rfind(v@.subrange(lo as int, hi as int), p@) {
            Some(k) => r == Some((lo + k) as usize),
            None => r is None,
        },
{
    let ghost s = v@.subrange(lo as int, hi as int);
    if p.len() > hi - lo {
        return None;
    }
    let mut i = hi - p.len();
    loop
        invariant
            lo <= i,
            i + p.len() <= hi <= v.len(),
            s == v@.subrange(lo as int, hi as int),
            rfind(s, p@) == rfind_from(s, p@, i - lo),
        decreases i,
    {
        let m = matches_at(v, hi, p, i);
        assert(m == occurs_at(s, p@, i - lo)) by {
            assert(s.subrange(i - lo, i - lo + p.len()) =~= v@.subrange(i as int, i + p.len()));
        }
        if m {
            return Some(i);
        }
        if i == lo {
            assert(rfind_from(s, p@, -1) is None);
            return None;
        }
        i = i - 1;
    }
}

/// `s[a..b]` (in characters) as a new `String`.
pub fn slice_string(s: &str, a: usize, b: usize) -> (r: String)
    requires
        a <= b <= s@.len(),
    ensures
        r@ == s@.subrange(a as int, b as int),
{
    String::from_str(s.substring_char(a, b))
}

/// `str::trim`, giving a new `String`.
pub fn trim_str(s: &str) -> (r: String)
    ensures
        r@ == trim(s@),
{
    let v = chars_of(s);
    let (a, b) = trim_range(&v, 0, v.len(), CharClass::Whitespace);
    assert(v@.subrange(0, v@.len() as int) =~= v@);
    slice_string(s, a, b)
}

/// What `str::to_lowercase` returns for a string with these characters.
pub uninterp spec fn lowercase_of(s: Seq<char>) -> Seq<char>;

/// Calls `str::to_lowercase` (std).  Its result depends on the characters of
/// `s` alone (Unicode case mapping, independent of locale); it is named by
/// `lowercase_of` and nothing more is claimed of it.
#[verifier::external_body]
pub fn to_lowercase(s: &str) -> (r: String)
    ensures
        r@ == lowercase_of(s@),
{
    s.to_lowercase()
}

/// `s` without every trailing repetition of the non-empty suffix `p`
/// (`str::trim_end_matches` with a string pattern).
pub open spec fn strip_suffix_all(s: Seq<char>, p: Seq<char>) -> Seq<char>
    decreases s.len(),
{
    if p.len() > 0 && ends_with(s, p) {
        strip_suffix_all(s.take(s.len() - p.len()), p)
    } else {
        s
    }
}

/// The end, within `[lo, hi)`, of `v[lo..hi]` trimmed of class `cls` at its end.
pub fn trim_end_range(v: &Vec<char>, lo: usize, hi: usize, cls: CharClass) -> (r: usize)
    requires
        lo <= hi <= v.len(),
    ensures
        lo <= r <= hi,
        v@.subrange(lo as int, r as int) == trim_end_class(v@.subrange(lo as int, hi as int), cls),
{
    let mut b = hi;
    while b > lo && cls.test(v[b - 1])
        invariant
            lo <= b <= hi <= v.len(),
            trim_end_class(v@.subrange(lo as int, hi as int), cls) == trim_end_class(
                v@.subrange(lo as int, b as int),
                cls,
            ),
        decreases b - lo,
    {
        assert(v@.subrange(lo as int, b as int).drop_last() =~= v@.subrange(lo as int, b - 1));
        b = b - 1;
    }
    b
}

/// The end, within `[0, hi)`, of `v[0..hi]` without every trailing
/// repetition of the non-empty suffix `p`.
pub fn strip_suffix_all_range(v: &Vec<char>, hi: usize, p: &Vec<char>) -> (r: usize)
    requires
        hi <= v.len(),
        p.len() > 0,
    ensures
        r <= hi,
        v@.subrange(0, r as int) == strip_suffix_all(v@.subrange(0, hi as int), p@),
{
    let mut b = hi;
    loop
        invariant
            b <= hi <= v.len(),
            p.len() > 0,
            strip_suffix_all(v@.subrange(0, hi as int), p@) == strip_suffix_all(
                v@.subrange(0, b as int),
                p@,
            ),
        decreases b,
    {
        if p.len() > b {
            return b;
        }
        let m = matches_at(v, b, p, b - p.len());
        assert(m == ends_with(v@.subrange(0, b as int), p@)) by {
            assert(v@.subrange(0, b as int).subrange(b - p.len(), b as int) =~= v@.subrange(
                b - p.len(),
                b as int,
            ));
        }
        if !m {
            return b;
        }
        assert(v@.subrange(0, b as int).take(b - p.len()) =~= v@.subrange(0, b - p.len()));
        b = b - p.len();
    }
}

} // verus!
