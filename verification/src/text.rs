//! Character-level string utilities shared by the import pipeline:
//! whitespace trimming, blank detection, and substring search.

use vstd::prelude::*;

verus! {

broadcast use vstd::string::group_string_axioms;

/// Membership in Unicode's `White_Space` set, the characters that
/// `char::is_whitespace` accepts.
pub open spec fn is_space(c: char) -> bool {
    c == ' ' || c == '\t' || c == '\n' || c == '\r' || c == '\u{b}' || c == '\u{c}'
        || c == '\u{85}' || c == '\u{a0}' || c == '\u{1680}'
        || (0x2000 <= c as u32 && c as u32 <= 0x200a)
        || c == '\u{2028}' || c == '\u{2029}' || c == '\u{202f}' || c == '\u{205f}'
        || c == '\u{3000}'
}

/// Executable check for [`is_space`].
pub fn is_space_char(c: char) -> (b: bool)
    ensures
        b == is_space(c),
{
    c == ' ' || c == '\t' || c == '\n' || c == '\r' || c == '\u{b}' || c == '\u{c}'
        || c == '\u{85}' || c == '\u{a0}' || c == '\u{1680}'
        || (0x2000 <= c as u32 && c as u32 <= 0x200a)
        || c == '\u{2028}' || c == '\u{2029}' || c == '\u{202f}' || c == '\u{205f}'
        || c == '\u{3000}'
}

/// A string is blank when every character is whitespace; trimming such a
/// string leaves it empty.
pub open spec fn is_blank(s: Seq<char>) -> bool {
    forall|i: int| 0 <= i < s.len() ==> is_space(s[i])
}

/// The characters of `s`, as a vector.
pub fn chars_of(s: &str) -> (r: Vec<char>)
    ensures
        r@ == s@,
{
    let mut r: Vec<char> = Vec::new();
    for c in it: s.chars()
        invariant
            it.seq() == s@,
            r@ == s@.subrange(0, it.index() as int),
    {
        r.push(c);
    }
    proof {
        assert(r@ =~= s@);
    }
    r
}

/// Equality of two string slices, decided character by character.
pub fn str_eq(a: &str, b: &str) -> (r: bool)
    ensures
        r == (a@ == b@),
{
    let va = chars_of(a);
    let vb = chars_of(b);
    if va.len() != vb.len() {
        proof {
            assert(a@.len() != b@.len());
        }
        return false;
    }
    for i in 0..va.len()
        invariant
            va.len() == vb.len(),
            va@ == a@,
            vb@ == b@,
            forall|j: int| 0 <= j < i ==> va@[j] == vb@[j],
    {
        if va[i] != vb[i] {
            return false;
        }
    }
    proof {
        assert(a@ =~= b@);
    }
    true
}

/// The case-folded image of a character sequence, as `str::to_lowercase`
/// computes it.  The folding is a function of the characters alone, so it
/// gets a name rather than a page of case tables.
pub uninterp spec fn lower_of(s: Seq<char>) -> Seq<char>;

/// Relies on `str::to_lowercase`: the Unicode lowercase mapping of the
/// string, which depends on its characters alone.
#[verifier::external_body]
pub(crate) fn lowercase(s: &str) -> (r: String)
    ensures
        r@ == lower_of(s@),
{
    s.to_lowercase()
}

/// Number of whitespace characters at the front of `s`.
pub open spec fn leading_spaces(s: Seq<char>) -> int
    decreases s.len(),
{
    if s.len() == 0 {
        0
    } else if !is_space(s[0]) {
        0
    } else {
        1 + leading_spaces(s.drop_first())
    }
}

/// Number of whitespace characters at the back of `s`.
pub open spec fn trailing_spaces(s: Seq<char>) -> int
    decreases s.len(),
{
    if s.len() == 0 {
        0
    } else if !is_space(s.last()) {
        0
    } else {
        1 + trailing_spaces(s.drop_last())
    }
}

/// `s` with leading and trailing whitespace removed, as `str::trim` leaves it.
pub open spec fn spec_trim(s: Seq<char>) -> Seq<char> {
    if leading_spaces(s) == s.len() {
        Seq::empty()
    } else {
        s.subrange(leading_spaces(s), s.len() - trailing_spaces(s))
    }
}

proof fn lemma_leading_spaces_bounds(s: Seq<char>)
    ensures
        0 <= leading_spaces(s) <= s.len(),
        forall|i: int| 0 <= i < leading_spaces(s) ==> is_space(s[i]),
        leading_spaces(s) < s.len() ==> !is_space(s[leading_spaces(s)]),
    decreases s.len(),
{
    if s.len() > 0 && is_space(s[0]) {
        lemma_leading_spaces_bounds(s.drop_first());
        assert forall|i: int| 0 <= i < leading_spaces(s) implies is_space(s[i]) by {
            if i > 0 {
                assert(s[i] == s.drop_first()[i - 1]);
            }
        }
    }
}

proof fn lemma_trailing_spaces_bounds(s: Seq<char>)
    ensures
        0 <= trailing_spaces(s) <= s.len(),
        forall|i: int| s.len() - trailing_spaces(s) <= i < s.len() ==> is_space(s[i]),
        trailing_spaces(s) < s.len() ==> !is_space(s[s.len() - trailing_spaces(s) - 1]),
    decreases s.len(),
{
    if s.len() > 0 && is_space(s.last()) {
        lemma_trailing_spaces_bounds(s.drop_last());
        assert forall|i: int| s.len() - trailing_spaces(s) <= i < s.len() implies is_space(
            s[i],
        ) by {
            if i < s.len() - 1 {
                assert(s[i] == s.drop_last()[i]);
            }
        }
    }
}

/// Characterizes `leading_spaces` by its defining properties, so that a scan
/// that finds the first non-space character has found `leading_spaces`.
proof fn lemma_leading_spaces_is(s: Seq<char>, n: int)
    requires
        0 <= n <= s.len(),
        forall|i: int| 0 <= i < n ==> is_space(s[i]),
        n < s.len() ==> !is_space(s[n]),
    ensures
        leading_spaces(s) == n,
    decreases s.len(),
{
    if s.len() > 0 && is_space(s[0]) {
        assert(forall|i: int| 0 <= i < n - 1 ==> s.drop_first()[i] == s[i + 1]);
        lemma_leading_spaces_is(s.drop_first(), n - 1);
    }
}

/// The mirror-image characterization for `trailing_spaces`.
proof fn lemma_trailing_spaces_is(s: Seq<char>, n: int)
    requires
        0 <= n <= s.len(),
        forall|i: int| s.len() - n <= i < s.len() ==> is_space(s[i]),
        n < s.len() ==> !is_space(s[s.len() - n - 1]),
    ensures
        trailing_spaces(s) == n,
    decreases s.len(),
{
    if s.len() > 0 && is_space(s.last()) {
        assert(forall|i: int| 0 <= i < s.len() - 1 ==> s.drop_last()[i] == s[i]);
        lemma_trailing_spaces_is(s.drop_last(), n - 1);
    }
}

/// `s` with surrounding whitespace removed.  Mirrors `str::trim`.
pub fn trim_str(s: &str) -> (r: String)
    ensures
        r@ == spec_trim(s@),
{
    let v = chars_of(s);
    let n = v.len();
    let mut a: usize = 0;
    while a < n && is_space_char(v[a])
        invariant
            v@ == s@,
            n == v.len(),
            0 <= a <= n,
            forall|i: int| 0 <= i < a ==> is_space(s@[i]),
        decreases n - a,
    {
        a = a + 1;
    }
    if a == n {
        proof {
            lemma_leading_spaces_is(s@, a as int);
        }
        return String::new();
    }
    let mut b: usize = n;
    while b > a && is_space_char(v[b - 1])
        invariant
            v@ == s@,
            n == v.len(),
            a < n,
            !is_space(s@[a as int]),
            a <= b <= n,
            forall|i: int| b <= i < n ==> is_space(s@[i]),
        decreases b,
    {
        b = b - 1;
    }
    proof {
        lemma_leading_spaces_is(s@, a as int);
        assert(b > a);
        assert(!is_space(s@[b - 1]));
        lemma_trailing_spaces_is(s@, n - b);
    }
    let t = s.substring_char(a, b);
    t.to_owned()
}

/// `needle` occurs contiguously somewhere inside `hay`.
pub open spec fn spec_contains(hay: Seq<char>, needle: Seq<char>) -> bool {
    exists|i: int|
        0 <= i && i + needle.len() <= hay.len() && #[trigger] hay.subrange(i, i + needle.len())
            == needle
}

/// Substring search, the check behind partial header matches.
pub fn contains_str(hay: &str, needle: &str) -> (r: bool)
    ensures
        r == spec_contains(hay@, needle@),
{
    let h = chars_of(hay);
    let m = chars_of(needle);
    if m.len() > h.len() {
        proof {
            assert(!spec_contains(hay@, needle@));
        }
        return false;
    }
    if m.len() == 0 {
        proof {
            assert(hay@.subrange(0, 0 + needle@.len() as int) =~= needle@);
        }
        return true;
    }
    let last = h.len() - m.len();
    for i in 0..last + 1
        invariant
            h@ == hay@,
            m@ == needle@,
            m.len() <= h.len(),
            last == h.len() - m.len(),
            forall|k: int|
                0 <= k < i ==> #[trigger] hay@.subrange(k, k + needle@.len()) != needle@,
    {
        let mut ok = true;
        for j in 0..m.len()
            invariant
                h@ == hay@,
                m@ == needle@,
                0 <= i <= last,
                last == h.len() - m.len(),
                ok <==> (forall|t: int| 0 <= t < j ==> hay@[i + t] == needle@[t]),
        {
            if h[i + j] != m[j] {
                ok = false;
            }
        }
        if ok {
            proof {
                assert(hay@.subrange(i as int, i + needle@.len()) =~= needle@);
            }
            return true;
        } else {
            proof {
                let w = choose|t: int| 0 <= t < needle@.len() && hay@[i + t] != needle@[t];
                assert(hay@.subrange(i as int, i + needle@.len())[w] != needle@[w]);
            }
        }
    }
    false
}

/// True when every character of `s` is whitespace.
pub fn all_spaces(s: &str) -> (b: bool)
    ensures
        b == is_blank(s@),
{
    let v = chars_of(s);
    for i in 0..v.len()
        invariant
            v@ == s@,
            forall|j: int| 0 <= j < i ==> is_space(s@[j]),
    {
        if !is_space_char(v[i]) {
            return false;
        }
    }
    true
}

} // verus!
