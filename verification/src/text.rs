//! Text primitives on sequences of characters.
//!
//! Every function here has a specification over `Seq<char>`; the executable
//! versions work on a `Vec<char>` and a half-open range of positions in it, so
//! that a caller can decode a string once and then cut it up without copying.

use vstd::prelude::*;
use vstd::std_specs::iter::IteratorSpec;

verus! {

// ---------------------------------------------------------------------------
// Characters
// ---------------------------------------------------------------------------

/// Whether `c` is white space: the code points with the Unicode property
/// `White_Space`.
pub open spec fn is_white_space(c: char) -> bool {
    let u = c as u32;
    ||| 0x09 <= u <= 0x0D
    ||| u == 0x20
    ||| u == 0x85
    ||| u == 0xA0
    ||| u == 0x1680
    ||| 0x2000 <= u <= 0x200A
    ||| u == 0x2028
    ||| u == 0x2029
    ||| u == 0x202F
    ||| u == 0x205F
    ||| u == 0x3000
}

/// Whether `c` is one of the decimal digits `0` to `9`.
pub open spec fn is_decimal_digit(c: char) -> bool {
    '0' <= c <= '9'
}

/// The number that the decimal digit `c` stands for.
pub open spec fn digit_of(c: char) -> nat {
    (c as u32 - '0' as u32) as nat
}

/// Whether `c` is white space.
pub fn is_whitespace(c: char) -> (b: bool)
    ensures
        b == is_white_space(c),
{
    let u: u32 = c as u32;
    (0x09 <= u && u <= 0x0D) || u == 0x20 || u == 0x85 || u == 0xA0 || u == 0x1680 || (0x2000 <= u
        && u <= 0x200A) || u == 0x2028 || u == 0x2029 || u == 0x202F || u == 0x205F || u == 0x3000
}

/// Whether `c` is a decimal digit.
pub fn is_digit(c: char) -> (b: bool)
    ensures
        b == is_decimal_digit(c),
{
    '0' <= c && c <= '9'
}

// ---------------------------------------------------------------------------
// Specifications
// ---------------------------------------------------------------------------

/// `s` without the white space it starts with.
pub open spec fn skip_leading(s: Seq<char>) -> Seq<char>
    decreases s.len(),
{
    if s.len() > 0 && is_white_space(s[0]) {
        skip_leading(s.drop_first())
    } else {
        s
    }
}

/// `s` without the white space it ends with.
pub open spec fn skip_trailing(s: Seq<char>) -> Seq<char>
    decreases s.len(),
{
    if s.len() > 0 && is_white_space(s.last()) {
        skip_trailing(s.drop_last())
    } else {
        s
    }
}

/// `s` without the white space at either end.
pub open spec fn trimmed(s: Seq<char>) -> Seq<char> {
    skip_trailing(skip_leading(s))
}

/// The position of the first `c` in `s`, or the length of `s` if there is
/// none.
pub open spec fn first_index_of(s: Seq<char>, c: char) -> int
    decreases s.len(),
{
    if s.len() == 0 || s[0] == c {
        0
    } else {
        1 + first_index_of(s.drop_first(), c)
    }
}

/// `s` cut at its first `c`: what stands before it and what stands after it.
pub open spec fn split_once(s: Seq<char>, c: char) -> Option<(Seq<char>, Seq<char>)> {
    let i = first_index_of(s, c);
    if i < s.len() {
        Some((s.take(i), s.skip(i + 1)))
    } else {
        None
    }
}

/// What follows `prefix` in `s`, if `s` starts with it.
pub open spec fn strip_prefix(s: Seq<char>, prefix: Seq<char>) -> Option<Seq<char>> {
    if prefix.is_prefix_of(s) {
        Some(s.skip(prefix.len() as int))
    } else {
        None
    }
}

/// `s` without every copy of `prefix` that it starts with, one after another.
pub open spec fn skip_repeated(s: Seq<char>, prefix: Seq<char>) -> Seq<char>
    decreases s.len(),
{
    if prefix.len() > 0 && prefix.is_prefix_of(s) {
        skip_repeated(s.skip(prefix.len() as int), prefix)
    } else {
        s
    }
}

/// Whether `s` ends with `suffix`.
pub open spec fn ends_with(s: Seq<char>, suffix: Seq<char>) -> bool {
    suffix.len() <= s.len() && s.skip(s.len() - suffix.len()) == suffix
}

/// Whether every character of `s` is a decimal digit.
pub open spec fn all_digits(s: Seq<char>) -> bool {
    forall|i: int| 0 <= i < s.len() ==> is_decimal_digit(#[trigger] s[i])
}

/// The number that the decimal digits `s` spell.
pub open spec fn digits_value(s: Seq<char>) -> nat
    decreases s.len(),
{
    if s.len() == 0 {
        0
    } else {
        digits_value(s.drop_last()) * 10 + digit_of(s.last())
    }
}

/// The number that `s` spells in decimal: an optional `+`, then at least one
/// digit and nothing else, with a value that fits in 64 bits.
pub open spec fn parsed_u64(s: Seq<char>) -> Option<u64> {
    if s.len() > 0 && s[0] == '+' {
        digits_to_u64(s.drop_first())
    } else {
        digits_to_u64(s)
    }
}

/// The number that the digits `s` spell: `s` is not empty and holds nothing
/// but digits, and the value fits in 64 bits.
pub open spec fn digits_to_u64(s: Seq<char>) -> Option<u64> {
    if s.len() > 0 && all_digits(s) && digits_value(s) <= u64::MAX {
        Some(digits_value(s) as u64)
    } else {
        None
    }
}

// ---------------------------------------------------------------------------
// Lemmas
// ---------------------------------------------------------------------------

/// Dropping white space at the front of a range is dropping it from the range
/// that starts one later.
proof fn lemma_skip_leading_step(s: Seq<char>, lo: int, hi: int)
    requires
        0 <= lo < hi <= s.len(),
        is_white_space(s[lo]),
    ensures
        skip_leading(s.subrange(lo, hi)) == skip_leading(s.subrange(lo + 1, hi)),
{
    assert(s.subrange(lo, hi).drop_first() =~= s.subrange(lo + 1, hi));
}

proof fn lemma_skip_trailing_step(s: Seq<char>, lo: int, hi: int)
    requires
        0 <= lo < hi <= s.len(),
        is_white_space(s[hi - 1]),
    ensures
        skip_trailing(s.subrange(lo, hi)) == skip_trailing(s.subrange(lo, hi - 1)),
{
    assert(s.subrange(lo, hi).drop_last() =~= s.subrange(lo, hi - 1));
}

/// The first `c` of a range that does not start with `c` is the first `c` of
/// the range that starts one later.
proof fn lemma_first_index_step(s: Seq<char>, lo: int, hi: int, c: char)
    requires
        0 <= lo < hi <= s.len(),
        s[lo] != c,
    ensures
        first_index_of(s.subrange(lo, hi), c) == 1 + first_index_of(s.subrange(lo + 1, hi), c),
{
    assert(s.subrange(lo, hi).drop_first() =~= s.subrange(lo + 1, hi));
}

/// One more digit multiplies the value by ten and adds the digit.
proof fn lemma_digits_value_push(s: Seq<char>, lo: int, hi: int)
    requires
        0 <= lo <= hi < s.len(),
    ensures
        digits_value(s.subrange(lo, hi + 1)) == digits_value(s.subrange(lo, hi)) * 10 + digit_of(
            s[hi],
        ),
{
    assert(s.subrange(lo, hi + 1).drop_last() =~= s.subrange(lo, hi));
}

/// A longer run of digits is worth no less than the run it starts with.
proof fn lemma_digits_value_grows(s: Seq<char>, k: int)
    requires
        0 <= k <= s.len(),
    ensures
        digits_value(s.take(k)) <= digits_value(s),
    decreases s.len() - k,
{
    if k == s.len() {
        assert(s.take(k) =~= s);
    } else {
        lemma_digits_value_grows(s.drop_last(), k);
        assert(s.drop_last().take(k) =~= s.take(k));
    }
}

// ---------------------------------------------------------------------------
// Executable functions
// ---------------------------------------------------------------------------

/// The characters of `s`, in order.
pub fn chars_of(s: &str) -> (out: Vec<char>)
    ensures
        out@ == s@,
{
    broadcast use vstd::string::group_string_axioms;

    let mut out: Vec<char> = Vec::new();
    let mut it = s.chars();
    loop
        invariant
            it.obeys_prophetic_iter_laws(),
            out@ + it.remaining() == s@,
        ensures
            out@ == s@,
        decreases s@.len() - out@.len(),
    {
        match it.next() {
            Some(c) => {
                out.push(c);
                assert(out@ + it.remaining() =~= s@);
            },
            None => {
                assert(out@ =~= s@);
                break ;
            },
        }
    }
    out
}

/// The part of `s[lo..hi]` that is left when the white space at both ends is
/// taken away, as a range of positions in `s`.
pub fn trim_range(s: &Vec<char>, lo: usize, hi: usize) -> (r: (usize, usize))
    requires
        lo <= hi <= s.len(),
    ensures
        lo <= r.0 <= r.1 <= hi,
        s@.subrange(r.0 as int, r.1 as int) == trimmed(s@.subrange(lo as int, hi as int)),
{
    let mut a: usize = lo;
    while a < hi && is_whitespace(s[a])
        invariant
            lo <= a <= hi <= s.len(),
            skip_leading(s@.subrange(lo as int, hi as int)) == skip_leading(
                s@.subrange(a as int, hi as int),
            ),
        decreases hi - a,
    {
        proof {
            lemma_skip_leading_step(s@, a as int, hi as int);
        }
        a = a + 1;
    }
    let mut b: usize = hi;
    while a < b && is_whitespace(s[b - 1])
        invariant
            lo <= a <= b <= hi <= s.len(),
            skip_trailing(s@.subrange(a as int, hi as int)) == skip_trailing(
                s@.subrange(a as int, b as int),
            ),
        decreases b - a,
    {
        proof {
            lemma_skip_trailing_step(s@, a as int, b as int);
        }
        b = b - 1;
    }
    proof {
        let head = s@.subrange(a as int, hi as int);
        let body = s@.subrange(a as int, b as int);
        assert(skip_leading(head) == head) by {
            if a < hi {
                assert(head[0] == s@[a as int]);
            }
        }
        assert(skip_trailing(body) == body) by {
            if a < b {
                assert(body.last() == s@[b - 1]);
            }
        }
    }
    (a, b)
}

/// The position of the first `c` in `s[lo..hi]`, if there is one.
pub fn find_char(s: &Vec<char>, lo: usize, hi: usize, c: char) -> (r: Option<usize>)
    requires
        lo <= hi <= s.len(),
    ensures
        match r {
            Some(i) => lo <= i < hi && i - lo == first_index_of(
                s@.subrange(lo as int, hi as int),
                c,
            ),
            None => first_index_of(s@.subrange(lo as int, hi as int), c) == hi - lo,
        },
{
    let mut i: usize = lo;
    while i < hi && s[i] != c
        invariant
            lo <= i <= hi <= s.len(),
            first_index_of(s@.subrange(lo as int, hi as int), c) == (i - lo) + first_index_of(
                s@.subrange(i as int, hi as int),
                c,
            ),
        decreases hi - i,
    {
        proof {
            lemma_first_index_step(s@, i as int, hi as int, c);
        }
        i = i + 1;
    }
    proof {
        let tail = s@.subrange(i as int, hi as int);
        if i < hi {
            assert(tail[0] == s@[i as int]);
        }
        assert(first_index_of(tail, c) == 0);
    }
    if i < hi {
        Some(i)
    } else {
        None
    }
}

/// Whether `s[lo..hi]` starts with `prefix`.
pub fn has_prefix(s: &Vec<char>, lo: usize, hi: usize, prefix: &Vec<char>) -> (b: bool)
    requires
        lo <= hi <= s.len(),
    ensures
        b == prefix@.is_prefix_of(s@.subrange(lo as int, hi as int)),
{
    let n = prefix.len();
    if n > hi - lo {
        return false;
    }
    let ghost range = s@.subrange(lo as int, hi as int);
    let mut i: usize = 0;
    while i < n
        invariant
            lo <= hi <= s.len(),
            n == prefix.len(),
            n <= hi - lo,
            i <= n,
            range == s@.subrange(lo as int, hi as int),
            forall|j: int| 0 <= j < i ==> prefix@[j] == range[j],
        decreases n - i,
    {
        if prefix[i] != s[lo + i] {
            proof {
                assert(range[i as int] == s@[lo + i]);
                if prefix@.is_prefix_of(range) {
                    assert(prefix@ =~= range.subrange(0, prefix@.len() as int));
                    assert(prefix@[i as int] == range[i as int]);
                }
            }
            return false;
        }
        proof {
            assert(range[i as int] == s@[lo + i]);
        }
        i = i + 1;
    }
    proof {
        assert(prefix@ =~= range.subrange(0, prefix@.len() as int));
    }
    true
}

/// Where `s[lo..hi]` starts once every copy of `prefix` at its front is
/// passed over.
pub fn skip_repeated_range(s: &Vec<char>, lo: usize, hi: usize, prefix: &Vec<char>) -> (r: usize)
    requires
        lo <= hi <= s.len(),
    ensures
        lo <= r <= hi,
        s@.subrange(r as int, hi as int) == skip_repeated(
            s@.subrange(lo as int, hi as int),
            prefix@,
        ),
{
    let n = prefix.len();
    if n == 0 {
        return lo;
    }
    let mut a: usize = lo;
    while has_prefix(s, a, hi, prefix)
        invariant
            lo <= a <= hi <= s.len(),
            n == prefix.len(),
            n > 0,
            skip_repeated(s@.subrange(lo as int, hi as int), prefix@) == skip_repeated(
                s@.subrange(a as int, hi as int),
                prefix@,
            ),
        decreases hi - a,
    {
        proof {
            assert(s@.subrange(a as int, hi as int).skip(n as int) =~= s@.subrange(
                a + n,
                hi as int,
            ));
        }
        a = a + n;
    }
    a
}

/// Whether `s[lo..hi]` and `other` hold the same characters.
pub fn range_eq(s: &Vec<char>, lo: usize, hi: usize, other: &Vec<char>) -> (b: bool)
    requires
        lo <= hi <= s.len(),
    ensures
        b == (s@.subrange(lo as int, hi as int) == other@),
{
    if other.len() != hi - lo {
        return false;
    }
    let b = has_prefix(s, lo, hi, other);
    proof {
        let range = s@.subrange(lo as int, hi as int);
        if b {
            assert(range =~= other@);
        }
    }
    b
}

/// The number that `s[lo..hi]` spells in decimal, if it spells one that fits in
/// 64 bits.
pub fn parse_u64_range(s: &Vec<char>, lo: usize, hi: usize) -> (r: Option<u64>)
    requires
        lo <= hi <= s.len(),
    ensures
        r == parsed_u64(s@.subrange(lo as int, hi as int)),
{
    let ghost whole = s@.subrange(lo as int, hi as int);
    let start: usize = if lo < hi && s[lo] == '+' {
        lo + 1
    } else {
        lo
    };
    let ghost digits = s@.subrange(start as int, hi as int);
    proof {
        if lo < hi {
            assert(whole[0] == s@[lo as int]);
        }
        if start == lo + 1 {
            assert(whole.drop_first() =~= digits);
        } else {
            assert(whole =~= digits);
        }
    }
    if start == hi {
        return None;
    }
    let mut value: u64 = 0;
    let mut i: usize = start;
    while i < hi
        invariant
            lo <= start <= i <= hi <= s.len(),
            start < hi,
            digits == s@.subrange(start as int, hi as int),
            parsed_u64(s@.subrange(lo as int, hi as int)) == digits_to_u64(digits),
            all_digits(s@.subrange(start as int, i as int)),
            value == digits_value(s@.subrange(start as int, i as int)),
        decreases hi - i,
    {
        let c = s[i];
        if !is_digit(c) {
            proof {
                assert(digits[i - start] == c);
            }
            return None;
        }
        let d: u64 = (c as u32 - '0' as u32) as u64;
        proof {
            lemma_digits_value_push(s@, start as int, i as int);
            let next = s@.subrange(start as int, i + 1);
            assert forall|j: int| 0 <= j < next.len() implies is_decimal_digit(
                #[trigger] next[j],
            ) by {
                if j < i - start {
                    assert(next[j] == s@.subrange(start as int, i as int)[j]);
                }
            }
            if value * 10 + d > u64::MAX {
                if all_digits(digits) {
                    lemma_digits_value_grows(digits, i + 1 - start);
                    assert(digits.take(i + 1 - start) =~= next);
                }
            }
        }
        if value > (u64::MAX - d) / 10 {
            return None;
        }
        value = value * 10 + d;
        i = i + 1;
    }
    proof {
        assert(s@.subrange(start as int, i as int) =~= digits);
    }
    Some(value)
}

/// The part of `s` from character `lo` up to character `hi`, as a string of
/// its own.
pub fn copy_range(s: &str, lo: usize, hi: usize) -> (r: String)
    requires
        lo <= hi <= s@.len(),
    ensures
        r@ == s@.subrange(lo as int, hi as int),
{
    s.substring_char(lo, hi).to_owned()
}

/// `s` without the white space at either end.
pub fn trim(s: &str) -> (r: String)
    ensures
        r@ == trimmed(s@),
{
    let chars = chars_of(s);
    let (a, b) = trim_range(&chars, 0, chars.len());
    proof {
        assert(chars@.subrange(0, chars@.len() as int) =~= s@);
    }
    copy_range(s, a, b)
}

/// The number that `s` spells in decimal, if it spells one that fits in 64
/// bits.
pub fn parse_u64(s: &str) -> (r: Option<u64>)
    ensures
        r == parsed_u64(s@),
{
    let chars = chars_of(s);
    proof {
        assert(chars@.subrange(0, chars@.len() as int) =~= s@);
    }
    parse_u64_range(&chars, 0, chars.len())
}

/// Whether `s` starts with `prefix`.
pub fn starts_with(s: &str, prefix: &str) -> (b: bool)
    ensures
        b == prefix@.is_prefix_of(s@),
{
    let chars = chars_of(s);
    let p = chars_of(prefix);
    proof {
        assert(chars@.subrange(0, chars@.len() as int) =~= s@);
    }
    has_prefix(&chars, 0, chars.len(), &p)
}

/// Whether `s` ends with `suffix`.
pub fn str_ends_with(s: &str, suffix: &str) -> (b: bool)
    ensures
        b == ends_with(s@, suffix@),
{
    let chars = chars_of(s);
    let x = chars_of(suffix);
    if x.len() > chars.len() {
        return false;
    }
    let from = chars.len() - x.len();
    proof {
        assert(chars@.subrange(from as int, chars@.len() as int) =~= s@.skip(from as int));
    }
    range_eq(&chars, from, chars.len(), &x)
}

/// Whether `a` and `b` hold the same characters.
pub fn str_eq(a: &str, b: &str) -> (r: bool)
    ensures
        r == (a@ == b@),
{
    let x = chars_of(a);
    let y = chars_of(b);
    proof {
        assert(x@.subrange(0, x@.len() as int) =~= a@);
    }
    range_eq(&x, 0, x.len(), &y)
}

} // verus!
