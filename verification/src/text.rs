//! Text primitives shared by the other modules: stripping characters from the
//! ends of a text, reading decimal integers, comparing texts by content.
//!
//! Every text is modelled by its sequence of characters.

use vstd::prelude::*;

verus! {

/// The characters that carry the Unicode `White_Space` property.
pub open spec fn is_white_space(c: char) -> bool {
    ||| ('\u{9}' <= c && c <= '\u{d}')
    ||| c == ' '
    ||| c == '\u{85}'
    ||| c == '\u{a0}'
    ||| c == '\u{1680}'
    ||| ('\u{2000}' <= c && c <= '\u{200a}')
    ||| c == '\u{2028}'
    ||| c == '\u{2029}'
    ||| c == '\u{202f}'
    ||| c == '\u{205f}'
    ||| c == '\u{3000}'
}

/// Whether `c` is a white-space character.
pub fn is_white_space_char(c: char) -> (b: bool)
    ensures
        b == is_white_space(c),
{
    ('\u{9}' <= c && c <= '\u{d}')
        || c == ' '
        || c == '\u{85}'
        || c == '\u{a0}'
        || c == '\u{1680}'
        || ('\u{2000}' <= c && c <= '\u{200a}')
        || c == '\u{2028}'
        || c == '\u{2029}'
        || c == '\u{202f}'
        || c == '\u{205f}'
        || c == '\u{3000}'
}

/// Whether `c` is one of the decimal digits `0` to `9`.
pub open spec fn is_digit(c: char) -> bool {
    '0' <= c && c <= '9'
}

/// A class of characters that can be stripped from the ends of a text.
#[derive(Clone, Copy, Debug)]
pub enum CharClass {
    /// Every white-space character.
    WhiteSpace,
    /// One given character.
    Exactly(char),
    /// The decimal digits `0` to `9`.
    Digit,
}

impl CharClass {
    /// Whether `c` belongs to the class.
    pub open spec fn has(self, c: char) -> bool {
        match self {
            CharClass::WhiteSpace => is_white_space(c),
            CharClass::Exactly(x) => c == x,
            CharClass::Digit => is_digit(c),
        }
    }

    /// Whether `c` belongs to the class.
    pub fn contains(&self, c: char) -> (b: bool)
        ensures
            b == self.has(c),
    {
        match self {
            CharClass::WhiteSpace => is_white_space_char(c),
            CharClass::Exactly(x) => c == *x,
            CharClass::Digit => '0' <= c && c <= '9',
        }
    }
}

/// How many characters at the start of `s` belong to `class` without a break.
pub open spec fn leading_run(s: Seq<char>, class: CharClass) -> nat
    decreases s.len(),
{
    if s.len() > 0 && class.has(s.first()) {
        1 + leading_run(s.drop_first(), class)
    } else {
        0
    }
}

/// How many characters at the end of `s` belong to `class` without a break.
pub open spec fn trailing_run(s: Seq<char>, class: CharClass) -> nat
    decreases s.len(),
{
    if s.len() > 0 && class.has(s.last()) {
        1 + trailing_run(s.drop_last(), class)
    } else {
        0
    }
}

/// `s` without its leading characters of `class`.
pub open spec fn without_leading(s: Seq<char>, class: CharClass) -> Seq<char> {
    s.skip(leading_run(s, class) as int)
}

/// `s` without its trailing characters of `class`.
pub open spec fn without_trailing(s: Seq<char>, class: CharClass) -> Seq<char> {
    s.take(s.len() - trailing_run(s, class))
}

/// `s` without its leading and trailing characters of `class`.
pub open spec fn stripped(s: Seq<char>, class: CharClass) -> Seq<char> {
    without_trailing(without_leading(s, class), class)
}

/// A run that ends at the first character outside the class has exactly that length.
pub proof fn lemma_leading_run_is(s: Seq<char>, class: CharClass, n: int)
    requires
        0 <= n <= s.len(),
        forall|i: int| 0 <= i < n ==> class.has(#[trigger] s[i]),
        n == s.len() || !class.has(s[n]),
    ensures
        leading_run(s, class) == n,
    decreases n,
{
    if n > 0 {
        let rest = s.drop_first();
        assert(class.has(s[0]));
        assert forall|i: int| 0 <= i < n - 1 implies class.has(#[trigger] rest[i]) by {
            assert(rest[i] == s[i + 1]);
        }
        if n < s.len() {
            assert(rest[n - 1] == s[n]);
        }
        lemma_leading_run_is(rest, class, n - 1);
    }
}

/// A run that starts right after the last character outside the class has exactly that length.
pub proof fn lemma_trailing_run_is(s: Seq<char>, class: CharClass, n: int)
    requires
        0 <= n <= s.len(),
        forall|i: int| s.len() - n <= i < s.len() ==> class.has(#[trigger] s[i]),
        n == s.len() || !class.has(s[s.len() - n - 1]),
    ensures
        trailing_run(s, class) == n,
    decreases n,
{
    if n > 0 {
        let rest = s.drop_last();
        assert(class.has(s[s.len() - 1]));
        assert forall|i: int| rest.len() - (n - 1) <= i < rest.len() implies class.has(
            #[trigger] rest[i],
        ) by {
            assert(rest[i] == s[i]);
        }
        if n < s.len() {
            assert(rest[rest.len() - (n - 1) - 1] == s[s.len() - n - 1]);
        }
        lemma_trailing_run_is(rest, class, n - 1);
    }
}

/// Stripping a text that is wrapped in characters of a class gives the text
/// back, provided that the text itself neither starts nor ends with one.
pub proof fn lemma_stripped_wrapped(
    before: Seq<char>,
    inner: Seq<char>,
    after: Seq<char>,
    class: CharClass,
)
    requires
        forall|i: int| 0 <= i < before.len() ==> class.has(#[trigger] before[i]),
        forall|i: int| 0 <= i < after.len() ==> class.has(#[trigger] after[i]),
        inner.len() > 0 ==> !class.has(inner.first()) && !class.has(inner.last()),
    ensures
        stripped(before + inner + after, class) == inner,
{
    let whole = before + inner + after;
    if inner.len() == 0 {
        lemma_leading_run_is(whole, class, whole.len() as int);
        assert(without_leading(whole, class) =~= Seq::<char>::empty());
        assert(stripped(whole, class) =~= inner);
    } else {
        assert(whole[before.len() as int] == inner[0]);
        lemma_leading_run_is(whole, class, before.len() as int);
        let rest = inner + after;
        assert(without_leading(whole, class) =~= rest);
        assert(rest[inner.len() - 1] == inner.last());
        assert forall|i: int| rest.len() - after.len() <= i < rest.len() implies class.has(
            #[trigger] rest[i],
        ) by {
            assert(rest[i] == after[i - inner.len()]);
        }
        lemma_trailing_run_is(rest, class, after.len() as int);
        assert(without_trailing(rest, class) =~= inner);
    }
}

/// The characters of `s`, in order.
pub fn chars_of(s: &str) -> (v: Vec<char>)
    ensures
        v@ == s@,
{
    let mut v: Vec<char> = Vec::new();
    for c in it: s.chars()
        invariant
            v@ == it.seq().take(it.index() as int),
            it.seq() == s@,
    {
        v.push(c);
    }
    v
}

/// How many characters of `class` follow one another in `chars` from `start` on.
pub fn run_from(chars: &Vec<char>, start: usize, class: CharClass) -> (n: usize)
    requires
        start <= chars@.len(),
    ensures
        n == leading_run(chars@.skip(start as int), class),
        start + n <= chars@.len(),
{
    let len = chars.len();
    let mut i: usize = start;
    while i < len && class.contains(chars[i])
        invariant
            len == chars@.len(),
            start <= i <= len,
            forall|k: int| start <= k < i ==> class.has(#[trigger] chars@[k]),
        decreases len - i,
    {
        i = i + 1;
    }
    proof {
        let rest = chars@.skip(start as int);
        assert forall|k: int| 0 <= k < i - start implies class.has(#[trigger] rest[k]) by {
            assert(rest[k] == chars@[start + k]);
        }
        lemma_leading_run_is(rest, class, i - start);
    }
    i - start
}

/// `s` without its leading characters of `class`.
pub fn strip_start<'a>(s: &'a str, class: CharClass) -> (r: &'a str)
    ensures
        r@ == without_leading(s@, class),
{
    let chars = chars_of(s);
    let n = run_from(&chars, 0, class);
    assert(chars@.skip(0) =~= chars@);
    s.substring_char(n, chars.len())
}

/// `s` without its trailing characters of `class`.
pub fn strip_end<'a>(s: &'a str, class: CharClass) -> (r: &'a str)
    ensures
        r@ == without_trailing(s@, class),
{
    let chars = chars_of(s);
    let n = chars.len();
    let mut j: usize = n;
    while j > 0 && class.contains(chars[j - 1])
        invariant
            n == chars@.len(),
            j <= n,
            forall|k: int| j <= k < n ==> class.has(#[trigger] chars@[k]),
        decreases j,
    {
        j = j - 1;
    }
    proof {
        lemma_trailing_run_is(chars@, class, n - j);
    }
    s.substring_char(0, j)
}

/// `s` without its leading and trailing characters of `class`.
pub fn strip<'a>(s: &'a str, class: CharClass) -> (r: &'a str)
    ensures
        r@ == stripped(s@, class),
{
    strip_end(strip_start(s, class), class)
}

/// `s` without leading and trailing white space.
pub fn trim<'a>(s: &'a str) -> (r: &'a str)
    ensures
        r@ == stripped(s@, CharClass::WhiteSpace),
{
    strip(s, CharClass::WhiteSpace)
}

/// `s` with every leading and trailing occurrence of `c` removed.
pub fn trim_matches<'a>(s: &'a str, c: char) -> (r: &'a str)
    ensures
        r@ == stripped(s@, CharClass::Exactly(c)),
{
    strip(s, CharClass::Exactly(c))
}

/// `s` with every trailing occurrence of `c` removed.
pub fn trim_end_matches<'a>(s: &'a str, c: char) -> (r: &'a str)
    ensures
        r@ == without_trailing(s@, CharClass::Exactly(c)),
{
    strip_end(s, CharClass::Exactly(c))
}

/// The number that a run of decimal digits denotes.
pub open spec fn decimal_value(digits: Seq<char>) -> nat
    decreases digits.len(),
{
    if digits.len() == 0 {
        0
    } else {
        10 * decimal_value(digits.drop_last()) + (digits.last() as nat - '0' as nat) as nat
    }
}

/// The integer that a text denotes in decimal notation: an optional sign, then
/// one or more decimal digits, and nothing else. A plus sign is always
/// admitted, a minus sign only where `minus` says so.
pub open spec fn decimal_integer(s: Seq<char>, minus: bool) -> Option<int> {
    let signed = s.len() > 0 && (s[0] == '+' || (minus && s[0] == '-'));
    let digits = if signed {
        s.skip(1)
    } else {
        s
    };
    if digits.len() == 0 || leading_run(digits, CharClass::Digit) != digits.len() {
        None
    } else if signed && s[0] == '-' {
        Some(-(decimal_value(digits) as int))
    } else {
        Some(decimal_value(digits) as int)
    }
}

/// The `u64` that a text denotes: a decimal integer without a minus sign that
/// a `u64` can hold.
pub open spec fn u64_of_text(s: Seq<char>) -> Option<u64> {
    match decimal_integer(s, false) {
        Some(v) => if v <= u64::MAX {
            Some(v as u64)
        } else {
            None
        },
        None => None,
    }
}

/// The `usize` that a text denotes: a decimal integer without a minus sign
/// that a `usize` can hold.
pub open spec fn usize_of_text(s: Seq<char>) -> Option<usize> {
    match decimal_integer(s, false) {
        Some(v) => if v <= usize::MAX {
            Some(v as usize)
        } else {
            None
        },
        None => None,
    }
}

/// The `i32` that a text denotes: a decimal integer that an `i32` can hold.
pub open spec fn i32_of_text(s: Seq<char>) -> Option<i32> {
    match decimal_integer(s, true) {
        Some(v) => if i32::MIN <= v <= i32::MAX {
            Some(v as i32)
        } else {
            None
        },
        None => None,
    }
}

/// The digits at the start of a run denote no more than the whole run.
pub proof fn lemma_decimal_value_prefix(digits: Seq<char>, k: int)
    requires
        0 <= k <= digits.len(),
    ensures
        decimal_value(digits.take(k)) <= decimal_value(digits),
    decreases digits.len() - k,
{
    if k < digits.len() {
        lemma_decimal_value_prefix(digits, k + 1);
        assert(digits.take(k + 1).drop_last() =~= digits.take(k));
    } else {
        assert(digits.take(k) =~= digits);
    }
}

/// The value of the digits of `chars` from `start` on: none where no digit
/// stands there, where something other than a digit follows, or where the
/// value is more than a `u64` holds.
fn digits_to_u64(chars: &Vec<char>, start: usize) -> (r: Option<u64>)
    requires
        start <= chars@.len(),
    ensures
        r == ({
            let digits = chars@.skip(start as int);
            if digits.len() == 0 || leading_run(digits, CharClass::Digit) != digits.len()
                || decimal_value(digits) > u64::MAX {
                None
            } else {
                Some(decimal_value(digits) as u64)
            }
        }),
{
    let len = chars.len();
    let ghost digits = chars@.skip(start as int);
    if start == len {
        return None;
    }
    let mut acc: u64 = 0;
    let mut i: usize = start;
    while i < len
        invariant
            len == chars@.len(),
            start <= i <= len,
            digits == chars@.skip(start as int),
            forall|k: int| 0 <= k < i - start ==> CharClass::Digit.has(#[trigger] digits[k]),
            acc == decimal_value(digits.take(i - start)),
        decreases len - i,
    {
        let c = chars[i];
        assert(digits[i - start] == c);
        if !('0' <= c && c <= '9') {
            proof {
                lemma_leading_run_is(digits, CharClass::Digit, i - start);
            }
            return None;
        }
        let d: u64 = (c as u32 - '0' as u32) as u64;
        proof {
            assert(digits.take(i - start + 1).drop_last() =~= digits.take(i - start));
            assert(decimal_value(digits.take(i - start + 1)) == 10 * acc + d);
            lemma_decimal_value_prefix(digits, i - start + 1);
        }
        if acc > 1844674407370955161 || (acc == 1844674407370955161 && d > 5) {
            return None;
        }
        acc = acc * 10 + d;
        i = i + 1;
    }
    proof {
        assert(digits.take(len - start) =~= digits);
        lemma_leading_run_is(digits, CharClass::Digit, len - start);
    }
    Some(acc)
}

/// Whether `chars` starts with `sign`.
fn starts_with_sign(chars: &Vec<char>, sign: char) -> (b: bool)
    ensures
        b == (chars@.len() > 0 && chars@[0] == sign),
{
    chars.len() > 0 && chars[0] == sign
}

/// Reads a `u64` in decimal notation: an optional plus sign, then digits only.
pub fn parse_u64(s: &str) -> (r: Option<u64>)
    ensures
        r == u64_of_text(s@),
{
    let chars = chars_of(s);
    let start: usize = if starts_with_sign(&chars, '+') {
        1
    } else {
        0
    };
    assert(chars@.skip(0) =~= chars@);
    digits_to_u64(&chars, start)
}

/// Reads a `usize` in decimal notation: an optional plus sign, then digits only.
pub fn parse_usize(s: &str) -> (r: Option<usize>)
    ensures
        r == usize_of_text(s@),
{
    match parse_u64(s) {
        Some(v) => if v <= usize::MAX as u64 {
            Some(v as usize)
        } else {
            None
        },
        None => None,
    }
}

/// Reads an `i32` in decimal notation: an optional plus or minus sign, then
/// digits only.
pub fn parse_i32(s: &str) -> (r: Option<i32>)
    ensures
        r == i32_of_text(s@),
{
    let chars = chars_of(s);
    assert(chars@.skip(0) =~= chars@);
    if starts_with_sign(&chars, '-') {
        match digits_to_u64(&chars, 1) {
            Some(m) => if m <= 2147483648 {
                Some((0 - m as i64) as i32)
            } else {
                None
            },
            None => None,
        }
    } else {
        let start: usize = if starts_with_sign(&chars, '+') {
            1
        } else {
            0
        };
        match digits_to_u64(&chars, start) {
            Some(m) => if m <= 2147483647 {
                Some(m as i32)
            } else {
                None
            },
            None => None,
        }
    }
}

/// The characters of an optional text.
pub open spec fn opt_text(o: Option<String>) -> Option<Seq<char>> {
    match o {
        Some(s) => Some(s@),
        None => None,
    }
}

/// Whether two texts hold the same characters.
pub fn same_text(a: &str, b: &str) -> (r: bool)
    ensures
        r == (a@ == b@),
{
    let left = chars_of(a);
    let right = chars_of(b);
    if left.len() != right.len() {
        return false;
    }
    let n = left.len();
    let mut i: usize = 0;
    while i < n
        invariant
            left@ == a@,
            right@ == b@,
            n == left@.len(),
            n == right@.len(),
            i <= n,
            forall|k: int| 0 <= k < i ==> left@[k] == right@[k],
        decreases n - i,
    {
        if left[i] != right[i] {
            return false;
        }
        i = i + 1;
    }
    assert(left@ =~= right@);
    true
}

/// `first` followed by `second`.
pub fn join(first: &str, second: &str) -> (r: String)
    ensures
        r@ == first@ + second@,
{
    let mut r = String::from_str(first);
    r.append(second);
    r
}

} // verus!
