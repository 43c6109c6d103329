//! Recognizer for the textual grammar of real-number literals, as
//! `f64::from_str` documents it:
//!
//! ```text
//! Float  ::= Sign? ( 'inf' | 'infinity' | 'nan' | Number )
//! Number ::= Digit+ ('.' Digit*)? Exp?
//!          | '.' Digit+ Exp?
//! Exp    ::= ('e' | 'E') Sign? Digit+
//! ```
//!
//! with the alphabetic words matched case-insensitively.  Every
//! syntactically valid literal parses to some value (out-of-range
//! magnitudes round to infinity), so acceptance by this grammar is
//! exactly `f64::from_str(..).is_ok()`.

use vstd::prelude::*;

verus! {

/// An ASCII decimal digit.
pub open spec fn is_digit(c: char) -> bool {
    48 <= c as u32 && c as u32 <= 57
}

/// Executable check for [`is_digit`].
pub fn is_digit_char(c: char) -> (b: bool)
    ensures
        b == is_digit(c),
{
    let u = c as u32;
    48 <= u && u <= 57
}

/// Every character of `s` is an ASCII decimal digit.
pub open spec fn all_digits(s: Seq<char>) -> bool {
    forall|i: int| 0 <= i < s.len() ==> is_digit(s[i])
}

/// A digit string with at most one decimal point and at least one digit.
pub open spec fn is_mantissa(s: Seq<char>) -> bool {
    (s.len() > 0 && all_digits(s)) || (exists|d: int|
        0 <= d < s.len() && #[trigger] s[d] == '.' && s.len() > 1 && all_digits(
            s.subrange(0, d),
        ) && all_digits(s.subrange(d + 1, s.len() as int)))
}

/// An exponent marker followed by an optionally signed digit string.
pub open spec fn is_exponent(s: Seq<char>) -> bool {
    s.len() >= 2 && (s[0] == 'e' || s[0] == 'E') && {
        let t = s.subrange(1, s.len() as int);
        all_digits(t) || ((t[0] == '+' || t[0] == '-') && t.len() >= 2 && all_digits(
            t.subrange(1, t.len() as int),
        ))
    }
}

/// A mantissa with an optional exponent suffix.
pub open spec fn is_unsigned_number(t: Seq<char>) -> bool {
    exists|m: int|
        1 <= m <= t.len() && #[trigger] is_mantissa(t.subrange(0, m)) && (m == t.len()
            || is_exponent(t.subrange(m, t.len() as int)))
}

/// One character matched against its lower- and upper-case forms.
pub open spec fn eq_ci(c: char, lower: char, upper: char) -> bool {
    c == lower || c == upper
}

/// Executable check for [`eq_ci`].
pub fn eq_ci_char(c: char, lower: char, upper: char) -> (b: bool)
    ensures
        b == eq_ci(c, lower, upper),
{
    c == lower || c == upper
}

/// The word `inf`, in any capitalization.
pub open spec fn is_inf_word(t: Seq<char>) -> bool {
    t.len() == 3 && eq_ci(t[0], 'i', 'I') && eq_ci(t[1], 'n', 'N') && eq_ci(t[2], 'f', 'F')
}

/// The word `infinity`, in any capitalization.
pub open spec fn is_infinity_word(t: Seq<char>) -> bool {
    t.len() == 8 && eq_ci(t[0], 'i', 'I') && eq_ci(t[1], 'n', 'N') && eq_ci(t[2], 'f', 'F')
        && eq_ci(t[3], 'i', 'I') && eq_ci(t[4], 'n', 'N') && eq_ci(t[5], 'i', 'I') && eq_ci(
        t[6],
        't',
        'T',
    ) && eq_ci(t[7], 'y', 'Y')
}

/// The word `nan`, in any capitalization.
pub open spec fn is_nan_word(t: Seq<char>) -> bool {
    t.len() == 3 && eq_ci(t[0], 'n', 'N') && eq_ci(t[1], 'a', 'A') && eq_ci(t[2], 'n', 'N')
}

/// The whole grammar: an optional sign, then a special word or a number.
pub open spec fn spec_is_number(s: Seq<char>) -> bool {
    s.len() > 0 && {
        let t = if s[0] == '+' || s[0] == '-' {
            s.subrange(1, s.len() as int)
        } else {
            s
        };
        is_inf_word(t) || is_infinity_word(t) || is_nan_word(t) || is_unsigned_number(t)
    }
}

/// Characters that survive currency cleaning: everything but the dollar
/// sign, the thousands separator, and the plain space.
pub open spec fn keeps_in_amount(c: char) -> bool {
    !(c == '$' || c == ',' || c == ' ')
}

/// `s` with every `$`, `,` and space removed, the cleaning applied to a
/// money cell before the number grammar judges it.
pub open spec fn spec_strip_currency(s: Seq<char>) -> Seq<char>
    decreases s.len(),
{
    if s.len() == 0 {
        Seq::empty()
    } else if keeps_in_amount(s.last()) {
        spec_strip_currency(s.drop_last()).push(s.last())
    } else {
        spec_strip_currency(s.drop_last())
    }
}

/// Executable currency cleaning.
pub fn strip_currency_chars(s: &str) -> (r: Vec<char>)
    ensures
        r@ == spec_strip_currency(s@),
{
    let v = crate::text::chars_of(s);
    let mut r: Vec<char> = Vec::new();
    for i in 0..v.len()
        invariant
            v@ == s@,
            r@ == spec_strip_currency(s@.subrange(0, i as int)),
    {
        let c = v[i];
        proof {
            assert(s@.subrange(0, i + 1).drop_last() =~= s@.subrange(0, i as int));
            assert(s@.subrange(0, i + 1).last() == s@[i as int]);
        }
        if !(c == '$' || c == ',' || c == ' ') {
            r.push(c);
        }
    }
    proof {
        assert(s@.subrange(0, s@.len() as int) =~= s@);
    }
    r
}

/// Index of the first non-digit at or after `from`.
fn scan_digits(v: &Vec<char>, from: usize) -> (r: usize)
    requires
        from <= v.len(),
    ensures
        from <= r <= v.len(),
        forall|i: int| from <= i < r ==> is_digit(v@[i]),
        r < v.len() ==> !is_digit(v@[r as int]),
{
    let mut i = from;
    while i < v.len() && is_digit_char(v[i])
        invariant
            from <= i <= v.len(),
            forall|j: int| from <= j < i ==> is_digit(v@[j]),
        decreases v.len() - i,
    {
        i = i + 1;
    }
    i
}

/// What the digit scanner establishes about the tail `t`: the leading digit
/// run ends at `a`, an optional decimal point follows, and a second digit
/// run ends at `p`.
pub open spec fn scan_shape(t: Seq<char>, a: int, p: int, dot: bool) -> bool {
    &&& 0 <= a <= p <= t.len()
    &&& forall|i: int| 0 <= i < a ==> is_digit(t[i])
    &&& (a < t.len() ==> !is_digit(t[a]))
    &&& (dot <==> (a < t.len() && t[a] == '.'))
    &&& (dot ==> a + 1 <= p && (forall|i: int| a + 1 <= i < p ==> is_digit(t[i])) && (p < t.len()
        ==> !is_digit(t[p])))
    &&& (!dot ==> p == a)
}

/// Any valid mantissa prefix of `t` ends no later than the scanner's
/// mantissa end `p`.
proof fn lemma_mantissa_prefix_bound(t: Seq<char>, a: int, p: int, dot: bool, m: int)
    requires
        scan_shape(t, a, p, dot),
        0 <= m <= t.len(),
        is_mantissa(t.subrange(0, m)),
    ensures
        m <= p,
{
    let s = t.subrange(0, m);
    if m > p {
        if s.len() > 0 && all_digits(s) {
            // the character at the digit-run boundary would have to be a digit
            if dot {
                assert(s[a] == '.');
                assert(is_digit(s[a]));
            } else {
                assert(s[a] == t[a]);
                assert(is_digit(s[a]));
            }
        } else {
            let d = choose|d: int|
                0 <= d < s.len() && #[trigger] s[d] == '.' && s.len() > 1 && all_digits(
                    s.subrange(0, d),
                ) && all_digits(s.subrange(d + 1, s.len() as int));
            if d < a {
                assert(is_digit(t[d]));
            } else if d > a {
                assert(s.subrange(0, d)[a] == t[a]);
                assert(is_digit(t[a]));
                if dot {
                    assert(t[a] == '.');
                }
            } else {
                // the dot sits exactly at the digit-run boundary
                assert(dot);
                assert(p < m);
                assert(s.subrange(d + 1, s.len() as int)[p - d - 1] == t[p]);
                assert(is_digit(t[p]));
            }
        }
    }
}

/// With no digit on either side of the leading decimal point, no prefix of
/// `t` is a mantissa, so `t` is not a number.
proof fn lemma_no_mantissa(t: Seq<char>, a: int, p: int, dot: bool)
    requires
        scan_shape(t, a, p, dot),
        a == 0,
        dot ==> p == 1,
    ensures
        !is_unsigned_number(t),
{
    assert forall|m: int|
        1 <= m <= t.len() && #[trigger] is_mantissa(t.subrange(0, m)) implies false by {
        lemma_mantissa_prefix_bound(t, a, p, dot, m);
        if dot {
            assert(m == 1);
            let s = t.subrange(0, 1);
            assert(s[0] == '.');
            assert(!is_digit(s[0]));
            assert(!(s.len() > 0 && all_digits(s)));
            let d = choose|d: int|
                0 <= d < s.len() && #[trigger] s[d] == '.' && s.len() > 1 && all_digits(
                    s.subrange(0, d),
                ) && all_digits(s.subrange(d + 1, s.len() as int));
            assert(false);
        }
    }
}

/// Every position strictly before the scanner's mantissa end holds a digit
/// or the decimal point, so no exponent can begin there.
proof fn lemma_no_exponent_inside(t: Seq<char>, a: int, p: int, dot: bool, m: int)
    requires
        scan_shape(t, a, p, dot),
        0 <= m < p,
    ensures
        !is_exponent(t.subrange(m, t.len() as int)),
{
    let e = t.subrange(m, t.len() as int);
    assert(e.len() > 0);
    assert(e[0] == t[m]);
    if dot && m == a {
        assert(t[m] == '.');
    } else {
        assert(is_digit(t[m]));
    }
}

/// When the character after the scanned mantissa is no exponent marker, or
/// the exponent tail itself is malformed, `t` is not a number.
proof fn lemma_no_number_after_mantissa(t: Seq<char>, a: int, p: int, dot: bool)
    requires
        scan_shape(t, a, p, dot),
        p < t.len(),
        !is_exponent(t.subrange(p, t.len() as int)),
    ensures
        !is_unsigned_number(t),
{
    assert forall|m: int|
        1 <= m <= t.len() && #[trigger] is_mantissa(t.subrange(0, m)) implies !(m == t.len()
        || is_exponent(t.subrange(m, t.len() as int))) by {
        lemma_mantissa_prefix_bound(t, a, p, dot, m);
        if m < p {
            lemma_no_exponent_inside(t, a, p, dot, m);
        }
    }
}

/// Case-insensitive match of `v` from `start` on against the three special
/// words of the grammar.
fn matches_special_word(v: &Vec<char>, start: usize) -> (b: bool)
    requires
        start <= v.len(),
    ensures
        b == {
            let t = v@.subrange(start as int, v@.len() as int);
            is_inf_word(t) || is_infinity_word(t) || is_nan_word(t)
        },
{
    let n = v.len();
    let rem = n - start;
    if rem == 3 && eq_ci_char(v[start], 'i', 'I') && eq_ci_char(v[start + 1], 'n', 'N')
        && eq_ci_char(v[start + 2], 'f', 'F') {
        return true;
    }
    if rem == 8 && eq_ci_char(v[start], 'i', 'I') && eq_ci_char(v[start + 1], 'n', 'N')
        && eq_ci_char(v[start + 2], 'f', 'F') && eq_ci_char(v[start + 3], 'i', 'I') && eq_ci_char(
        v[start + 4],
        'n',
        'N',
    ) && eq_ci_char(v[start + 5], 'i', 'I') && eq_ci_char(v[start + 6], 't', 'T') && eq_ci_char(
        v[start + 7],
        'y',
        'Y',
    ) {
        return true;
    }
    if rem == 3 && eq_ci_char(v[start], 'n', 'N') && eq_ci_char(v[start + 1], 'a', 'A')
        && eq_ci_char(v[start + 2], 'n', 'N') {
        return true;
    }
    false
}

/// Acceptance by the number grammar, decided left to right.
pub fn is_number_chars(v: &Vec<char>) -> (b: bool)
    ensures
        b == spec_is_number(v@),
{
    let n = v.len();
    if n == 0 {
        return false;
    }
    let start: usize = if v[0] == '+' || v[0] == '-' {
        1
    } else {
        0
    };
    let ghost t = if v@[0] == '+' || v@[0] == '-' {
        v@.subrange(1, n as int)
    } else {
        v@
    };
    proof {
        assert(t =~= v@.subrange(start as int, n as int));
    }
    if matches_special_word(v, start) {
        return true;
    }
    let r = is_number_tail(v, start);
    proof {
        assert(!is_inf_word(t) && !is_infinity_word(t) && !is_nan_word(t));
    }
    r
}

/// Acceptance of `v` from `start` on by the `Number` production.
#[verifier::rlimit(50)]
fn is_number_tail(v: &Vec<char>, start: usize) -> (b: bool)
    requires
        start <= v.len(),
    ensures
        b == is_unsigned_number(v@.subrange(start as int, v@.len() as int)),
{
    let n = v.len();
    let ghost t = v@.subrange(start as int, n as int);
    let d1 = scan_digits(v, start);
    let int_digits = d1 - start;
    let mut pos = d1;
    let mut frac_digits: usize = 0;
    let mut dot = false;
    if pos < n && v[pos] == '.' {
        dot = true;
        let d2 = scan_digits(v, pos + 1);
        frac_digits = d2 - (pos + 1);
        pos = d2;
    }
    let ghost a = d1 - start;
    let ghost p = pos - start;
    proof {
        assert(forall|i: int| 0 <= i < a ==> t[i] == v@[start + i] && is_digit(t[i]));
        assert(a < t.len() ==> t[a] == v@[start + a]);
        assert(dot ==> forall|i: int| a + 1 <= i < p ==> t[i] == v@[start + i] && is_digit(t[i]));
        assert(p < t.len() ==> t[p] == v@[start + p]);
        assert(scan_shape(t, a, p, dot));
    }
    if int_digits == 0 && frac_digits == 0 {
        proof {
            lemma_no_mantissa(t, a, p, dot);
        }
        return false;
    }
    proof {
        // the scanned span is itself a valid mantissa
        let s = t.subrange(0, p);
        if dot {
            assert(s[a] == '.');
            assert(forall|i: int| 0 <= i < a ==> s.subrange(0, a)[i] == t[i]);
            assert(all_digits(s.subrange(0, a)));
            assert(forall|i: int|
                0 <= i < s.len() - a - 1 ==> #[trigger] s.subrange(a + 1, s.len() as int)[i] == t[a
                    + 1 + i]);
            assert(all_digits(s.subrange(a + 1, s.len() as int)));
            assert(s.len() > 1);
            assert(is_mantissa(s));
        } else {
            assert(forall|i: int| 0 <= i < s.len() ==> is_digit(s[i]));
            assert(is_mantissa(s));
        }
    }
    if pos == n {
        proof {
            let m = p;
            assert(1 <= m <= t.len() && is_mantissa(t.subrange(0, m)) && m == t.len());
        }
        return true;
    }
    // anything after the mantissa must be an exponent
    let marker = v[pos];
    if !(marker == 'e' || marker == 'E') {
        proof {
            assert(t.subrange(p, t.len() as int)[0] == t[p]);
            assert(!is_exponent(t.subrange(p, t.len() as int)));
            lemma_no_number_after_mantissa(t, a, p, dot);
        }
        return false;
    }
    let mut ep = pos + 1;
    if ep < n && (v[ep] == '+' || v[ep] == '-') {
        ep = ep + 1;
    }
    let d3 = scan_digits(v, ep);
    let ok = d3 > ep && d3 == n;
    proof {
        let e = t.subrange(p, t.len() as int);
        assert(e[0] == t[p] && t[p] == v@[start + p]);
        let q = e.subrange(1, e.len() as int);
        assert(forall|i: int| 0 <= i < q.len() ==> q[i] == v@[pos + 1 + i]);
        if ok {
            if ep == pos + 1 {
                assert(forall|i: int| 0 <= i < q.len() ==> is_digit(q[i]));
                assert(is_exponent(e));
            } else {
                assert(q[0] == v@[pos + 1]);
                assert(q.len() >= 2);
                assert(forall|i: int|
                    0 <= i < q.len() - 1 ==> #[trigger] q.subrange(1, q.len() as int)[i] == v@[ep
                        + i]);
                assert(all_digits(q.subrange(1, q.len() as int)));
                assert(is_exponent(e));
            }
            assert(1 <= p <= t.len() && is_mantissa(t.subrange(0, p)) && is_exponent(
                t.subrange(p, t.len() as int),
            ));
        } else {
            // the exponent lacks digits or carries trailing characters
            assert(!is_exponent(e)) by {
                if is_exponent(e) {
                    if d3 < n {
                        assert(!is_digit(v@[d3 as int]));
                        if ep == pos + 1 {
                            // no sign was consumed, so the tail must be all digits
                            assert(!(v@[pos + 1] == '+' || v@[pos + 1] == '-'));
                            assert(!(q[0] == '+' || q[0] == '-'));
                            assert(all_digits(q));
                            assert(q[d3 - pos - 1] == v@[d3 as int]);
                            assert(is_digit(v@[d3 as int]));
                        } else {
                            assert(v@[pos + 1] == '+' || v@[pos + 1] == '-');
                            if all_digits(q) {
                                assert(is_digit(q[0]));
                                assert(false);
                            } else {
                                assert(q.subrange(1, q.len() as int)[d3 - ep] == q[d3 - ep + 1]);
                                assert(q[d3 - ep + 1] == v@[d3 as int]);
                                assert(all_digits(q.subrange(1, q.len() as int)));
                                assert(is_digit(v@[d3 as int]));
                            }
                        }
                    } else {
                        // the digit run is empty and reaches the end
                        assert(d3 == ep && ep == n);
                        if ep == pos + 1 {
                            assert(q.len() == 0);
                        } else {
                            assert(q.len() == 1);
                            assert(q[0] == v@[pos + 1]);
                            assert(v@[pos + 1] == '+' || v@[pos + 1] == '-');
                            assert(!is_digit(q[0]));
                            assert(!all_digits(q));
                        }
                    }
                }
            }
            lemma_no_number_after_mantissa(t, a, p, dot);
        }
    }
    ok
}

} // verus!
