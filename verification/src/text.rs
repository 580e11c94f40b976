//! Character-level operations on text, stated over `Seq<char>`.
//!
//! Header values, request paths and configuration strings are all cut up the
//! same way: find a separator, drop the decoration around a piece, compare
//! with a keyword. The functions here do that on a `Vec<char>` with a pair of
//! bounds, so that a caller can narrow a range several times and slice the
//! string itself once at the end.

use vstd::prelude::*;

verus! {

/// A set of characters that a scan looks for or removes.
#[derive(Clone, Copy, Debug)]
pub enum CharClass {
    /// Every character with the Unicode `White_Space` property.
    Whitespace,
    /// One character.
    Only(char),
    /// One of two characters.
    Either(char, char),
}

/// The characters with the Unicode `White_Space` property.
pub open spec fn is_whitespace(c: char) -> bool {
    ||| '\u{9}' <= c <= '\u{D}'
    ||| c == ' '
    ||| c == '\u{85}'
    ||| c == '\u{A0}'
    ||| c == '\u{1680}'
    ||| '\u{2000}' <= c <= '\u{200A}'
    ||| c == '\u{2028}'
    ||| c == '\u{2029}'
    ||| c == '\u{202F}'
    ||| c == '\u{205F}'
    ||| c == '\u{3000}'
}

impl CharClass {
    /// Whether `c` belongs to the class.
    pub open spec fn has(self, c: char) -> bool {
        match self {
            CharClass::Whitespace => is_whitespace(c),
            CharClass::Only(a) => c == a,
            CharClass::Either(a, b) => c == a || c == b,
        }
    }

    /// Tests membership of one character.
    pub fn contains(self, c: char) -> (b: bool)
        ensures
            b == self.has(c),
    {
        match self {
            CharClass::Whitespace => {
                ('\u{9}' <= c && c <= '\u{D}') || c == ' ' || c == '\u{85}' || c == '\u{A0}' || c
                    == '\u{1680}' || ('\u{2000}' <= c && c <= '\u{200A}') || c == '\u{2028}' || c
                    == '\u{2029}' || c == '\u{202F}' || c == '\u{205F}' || c == '\u{3000}'
            },
            CharClass::Only(a) => c == a,
            CharClass::Either(a, b) => c == a || c == b,
        }
    }
}

/// How many characters at the front of `s` belong to `class`.
pub open spec fn leading(s: Seq<char>, class: CharClass) -> nat
    decreases s.len(),
{
    if s.len() > 0 && class.has(s[0]) {
        1 + leading(s.skip(1), class)
    } else {
        0
    }
}

/// How many characters at the back of `s` belong to `class`.
pub open spec fn trailing(s: Seq<char>, class: CharClass) -> nat
    decreases s.len(),
{
    if s.len() > 0 && class.has(s.last()) {
        1 + trailing(s.drop_last(), class)
    } else {
        0
    }
}

/// How many characters at the front of `s` stand before the first one of
/// `class`: the position of that character, or the length of `s` when there
/// is none.
pub open spec fn until(s: Seq<char>, class: CharClass) -> nat
    decreases s.len(),
{
    if s.len() > 0 && !class.has(s[0]) {
        1 + until(s.skip(1), class)
    } else {
        0
    }
}

/// `s` without the characters of `class` at its front.
pub open spec fn trim_start_matches(s: Seq<char>, class: CharClass) -> Seq<char> {
    s.skip(leading(s, class) as int)
}

/// `s` without the characters of `class` at its back.
pub open spec fn trim_end_matches(s: Seq<char>, class: CharClass) -> Seq<char> {
    s.take(s.len() - trailing(s, class))
}

/// `s` without the characters of `class` at both ends.
pub open spec fn trim_matches(s: Seq<char>, class: CharClass) -> Seq<char> {
    trim_end_matches(trim_start_matches(s, class), class)
}

/// `s` without the white space at both ends.
pub open spec fn trim(s: Seq<char>) -> Seq<char> {
    trim_matches(s, CharClass::Whitespace)
}

/// Whether `s` begins with `prefix`.
pub open spec fn has_prefix(s: Seq<char>, prefix: Seq<char>) -> bool {
    prefix.len() <= s.len() && s.take(prefix.len() as int) == prefix
}

/// Whether `pattern` occurs in `s` at position `at`.
pub open spec fn occurs_at(s: Seq<char>, pattern: Seq<char>, at: int) -> bool {
    0 <= at && at + pattern.len() <= s.len() && s.subrange(at, at + pattern.len()) == pattern
}

/// Whether `pattern` occurs somewhere in `s`.
pub open spec fn has_substring(s: Seq<char>, pattern: Seq<char>) -> bool {
    exists|at: int| occurs_at(s, pattern, at)
}

/// The number that the decimal digits of `s` write.
pub open spec fn digits_value(s: Seq<char>) -> nat
    decreases s.len(),
{
    if s.len() == 0 {
        0
    } else {
        digits_value(s.drop_last()) * 10 + (s.last() as nat - '0' as nat) as nat
    }
}

/// Whether every character of `s` is a decimal digit.
pub open spec fn all_digits(s: Seq<char>) -> bool {
    forall|i: int| 0 <= i < s.len() ==> '0' <= #[trigger] s[i] <= '9'
}

/// The unsigned number that `s` writes, if it writes one no larger than
/// `max`: an optional `+`, then at least one decimal digit and nothing else.
pub open spec fn parse_unsigned(s: Seq<char>, max: nat) -> Option<nat> {
    let digits = if s.len() > 0 && s[0] == '+' {
        s.skip(1)
    } else {
        s
    };
    if digits.len() > 0 && all_digits(digits) && digits_value(digits) <= max {
        Some(digits_value(digits))
    } else {
        None
    }
}

/// A longer run of digits never writes a smaller number than its front part.
pub proof fn lemma_digits_value_grows(s: Seq<char>, k: int)
    requires
        0 <= k <= s.len(),
        all_digits(s),
    ensures
        digits_value(s.take(k)) <= digits_value(s),
    decreases s.len() - k,
{
    if k == s.len() {
        assert(s.take(k) == s);
    } else {
        lemma_digits_value_grows(s, k + 1);
        let longer = s.take(k + 1);
        assert(longer.drop_last() == s.take(k));
    }
}

/// The lower-case form of a text, as Unicode defines it.
pub uninterp spec fn lowercase(s: Seq<char>) -> Seq<char>;

/// `str::to_lowercase`: the text with each character replaced by its
/// lower-case form, which depends on nothing but the text.
#[verifier::external_body]
pub(crate) fn to_lowercase(s: &str) -> (out: String)
    ensures
        out@ == lowercase(s@),
{
    s.to_lowercase()
}

/// The characters of `s`, in order.
pub fn chars_of(s: &str) -> (out: Vec<char>)
    ensures
        out@ == s@,
{
    let mut out: Vec<char> = Vec::new();
    for c in it: s.chars()
        invariant
            out@ == it.seq().take(it.index() as int),
            it.seq() == s@,
    {
        out.push(c);
    }
    out
}

/// Moves the lower bound of `lo..hi` past the characters of `class`.
pub fn skip_leading(cs: &Vec<char>, lo: usize, hi: usize, class: CharClass) -> (at: usize)
    requires
        lo <= hi <= cs.len(),
    ensures
        lo <= at <= hi,
        at == lo + leading(cs@.subrange(lo as int, hi as int), class),
        cs@.subrange(at as int, hi as int) == trim_start_matches(
            cs@.subrange(lo as int, hi as int),
            class,
        ),
{
    let mut i: usize = lo;
    while i < hi && class.contains(cs[i])
        invariant
            lo <= i <= hi <= cs.len(),
            leading(cs@.subrange(lo as int, hi as int), class) == (i - lo) + leading(
                cs@.subrange(i as int, hi as int),
                class,
            ),
        decreases hi - i,
    {
        assert(cs@.subrange(i as int, hi as int).skip(1) == cs@.subrange(i + 1, hi as int));
        i += 1;
    }
    i
}

/// Moves the upper bound of `lo..hi` back over the characters of `class`.
pub fn skip_trailing(cs: &Vec<char>, lo: usize, hi: usize, class: CharClass) -> (at: usize)
    requires
        lo <= hi <= cs.len(),
    ensures
        lo <= at <= hi,
        at == hi - trailing(cs@.subrange(lo as int, hi as int), class),
        cs@.subrange(lo as int, at as int) == trim_end_matches(
            cs@.subrange(lo as int, hi as int),
            class,
        ),
{
    let mut i: usize = hi;
    while i > lo && class.contains(cs[i - 1])
        invariant
            lo <= i <= hi <= cs.len(),
            trailing(cs@.subrange(lo as int, hi as int), class) == (hi - i) + trailing(
                cs@.subrange(lo as int, i as int),
                class,
            ),
        decreases i - lo,
    {
        assert(cs@.subrange(lo as int, i as int).drop_last() == cs@.subrange(lo as int, i - 1));
        i -= 1;
    }
    i
}

/// Narrows `lo..hi` by the characters of `class` at both ends.
pub fn trim_range(cs: &Vec<char>, lo: usize, hi: usize, class: CharClass) -> (r: (usize, usize))
    requires
        lo <= hi <= cs.len(),
    ensures
        lo <= r.0 <= r.1 <= hi,
        cs@.subrange(r.0 as int, r.1 as int) == trim_matches(
            cs@.subrange(lo as int, hi as int),
            class,
        ),
{
    let a = skip_leading(cs, lo, hi, class);
    let b = skip_trailing(cs, a, hi, class);
    (a, b)
}

/// The position of the first character of `class` in `lo..hi`, or `hi`.
pub fn find_class(cs: &Vec<char>, lo: usize, hi: usize, class: CharClass) -> (at: usize)
    requires
        lo <= hi <= cs.len(),
    ensures
        lo <= at <= hi,
        at == lo + until(cs@.subrange(lo as int, hi as int), class),
        at < hi ==> class.has(cs@[at as int]),
{
    let mut i: usize = lo;
    while i < hi && !class.contains(cs[i])
        invariant
            lo <= i <= hi <= cs.len(),
            until(cs@.subrange(lo as int, hi as int), class) == (i - lo) + until(
                cs@.subrange(i as int, hi as int),
                class,
            ),
        decreases hi - i,
    {
        assert(cs@.subrange(i as int, hi as int).skip(1) == cs@.subrange(i + 1, hi as int));
        i += 1;
    }
    i
}

/// Whether the characters of `lo..hi` begin with `prefix`.
pub fn range_has_prefix(cs: &Vec<char>, lo: usize, hi: usize, prefix: &Vec<char>) -> (b: bool)
    requires
        lo <= hi <= cs.len(),
    ensures
        b == has_prefix(cs@.subrange(lo as int, hi as int), prefix@),
{
    if prefix.len() > hi - lo {
        return false;
    }
    let ghost s = cs@.subrange(lo as int, hi as int);
    let mut k: usize = 0;
    while k < prefix.len()
        invariant
            lo <= hi <= cs.len(),
            k <= prefix.len() <= hi - lo,
            s == cs@.subrange(lo as int, hi as int),
            forall|j: int| 0 <= j < k ==> s[j] == prefix@[j],
        decreases prefix.len() - k,
    {
        if cs[lo + k] != prefix[k] {
            return false;
        }
        k += 1;
    }
    assert(s.take(prefix.len() as int) =~= prefix@);
    true
}

/// Whether `s` begins with `prefix`.
pub fn starts_with(s: &str, prefix: &str) -> (b: bool)
    ensures
        b == has_prefix(s@, prefix@),
{
    let cs = chars_of(s);
    let ps = chars_of(prefix);
    assert(cs@.subrange(0, cs.len() as int) == cs@);
    range_has_prefix(&cs, 0, cs.len(), &ps)
}

/// Whether `pattern` occurs somewhere in `s`.
pub fn contains(s: &str, pattern: &str) -> (b: bool)
    ensures
        b == has_substring(s@, pattern@),
{
    let cs = chars_of(s);
    let ps = chars_of(pattern);
    if ps.len() > cs.len() {
        return false;
    }
    let last = cs.len() - ps.len();
    let mut i: usize = 0;
    loop
        invariant
            cs@ == s@,
            ps@ == pattern@,
            last == cs.len() - ps.len(),
            i <= last,
            forall|at: int| 0 <= at < i ==> !occurs_at(s@, pattern@, at),
        decreases last - i,
    {
        assert(cs@.subrange(i as int, cs.len() as int).take(ps.len() as int) == cs@.subrange(
            i as int,
            i + ps.len(),
        ));
        if range_has_prefix(&cs, i, cs.len(), &ps) {
            assert(occurs_at(s@, pattern@, i as int));
            return true;
        }
        if i == last {
            return false;
        }
        i += 1;
    }
}

/// Whether two texts are the same.
pub fn same_text(a: &str, b: &str) -> (same: bool)
    ensures
        same == (a@ == b@),
{
    let x = chars_of(a);
    let y = chars_of(b);
    if x.len() != y.len() {
        return false;
    }
    let mut i: usize = 0;
    while i < x.len()
        invariant
            x.len() == y.len(),
            x@ == a@,
            y@ == b@,
            i <= x.len(),
            forall|j: int| 0 <= j < i ==> x@[j] == y@[j],
        decreases x.len() - i,
    {
        if x[i] != y[i] {
            return false;
        }
        i += 1;
    }
    assert(x@ =~= y@);
    true
}

/// `s` without the white space at both ends.
pub fn trimmed<'a>(s: &'a str) -> (out: &'a str)
    ensures
        out@ == trim(s@),
{
    let cs = chars_of(s);
    assert(cs@.subrange(0, cs.len() as int) == cs@);
    let (a, b) = trim_range(&cs, 0, cs.len(), CharClass::Whitespace);
    s.substring_char(a, b)
}

/// Reads an unsigned decimal number no larger than `max`.
pub fn parse_number(s: &str, max: u64) -> (out: Option<u64>)
    ensures
        out.is_some() == parse_unsigned(s@, max as nat).is_some(),
        out matches Some(n) ==> parse_unsigned(s@, max as nat) == Some(n as nat),
{
    let cs = chars_of(s);
    let start: usize = if cs.len() > 0 && cs[0] == '+' {
        1
    } else {
        0
    };
    let ghost digits = cs@.skip(start as int);
    if start == cs.len() {
        return None;
    }
    let mut acc: u64 = 0;
    let mut i: usize = start;
    while i < cs.len()
        invariant
            start <= i <= cs.len(),
            start < cs.len(),
            digits == cs@.skip(start as int),
            digits == if s@.len() > 0 && s@[0] == '+' {
                s@.skip(1)
            } else {
                s@
            },
            all_digits(digits.take(i - start)),
            acc == digits_value(digits.take(i - start)),
            acc <= max,
        decreases cs.len() - i,
    {
        let c = cs[i];
        let ghost before = digits.take(i - start);
        let ghost after = digits.take(i + 1 - start);
        proof {
            assert(after.drop_last() == before);
            assert(digits[i - start] == c);
        }
        if !('0' <= c && c <= '9') {
            return None;
        }
        let d: u64 = (c as u32 - '0' as u32) as u64;
        if d > max {
            proof {
                if all_digits(digits) {
                    lemma_digits_value_grows(digits, i + 1 - start);
                }
            }
            return None;
        }
        if acc > (max - d) / 10 {
            proof {
                assert(digits_value(after) > max) by (nonlinear_arith)
                    requires
                        acc > (max - d) / 10,
                        d <= 9,
                        d <= max,
                        digits_value(after) == acc * 10 + d,
                {}
                if all_digits(digits) {
                    lemma_digits_value_grows(digits, i + 1 - start);
                }
            }
            return None;
        }
        assert(acc * 10 + d <= max) by (nonlinear_arith)
            requires
                acc <= (max - d) / 10,
                d <= max,
        {}
        acc = acc * 10 + d;
        i += 1;
    }
    assert(digits.take(i - start) == digits);
    Some(acc)
}

} // verus!
