//! Reading text: characters of a string, whitespace trimming, splitting at
//! the first occurrence of a character, and decimal integers.
use vstd::prelude::*;
use vstd::string::*;

verus! {

/// Why a decimal integer could not be read, as `std::num::IntErrorKind`
/// names it.
#[derive(Debug, Clone, Copy, PartialEq, Eq, Structural)]
pub enum ParseIntErrorKind {
    /// The text is empty.
    Empty,
    /// The text holds a character that is not a decimal digit.
    InvalidDigit,
    /// The number is too large for the target type.
    PosOverflow,
}

/// `c` has the Unicode White_Space property, as `char::is_whitespace` tests.
pub open spec fn is_whitespace(c: char) -> bool {
    ||| '\u{9}' <= c <= '\u{d}'
    ||| c == ' '
    ||| c == '\u{85}'
    ||| c == '\u{a0}'
    ||| c == '\u{1680}'
    ||| '\u{2000}' <= c <= '\u{200a}'
    ||| c == '\u{2028}'
    ||| c == '\u{2029}'
    ||| c == '\u{202f}'
    ||| c == '\u{205f}'
    ||| c == '\u{3000}'
}

/// The number of whitespace characters at the start of `s`.
pub open spec fn leading_whitespace(s: Seq<char>) -> nat
    decreases s.len(),
{
    if s.len() > 0 && is_whitespace(s[0]) {
        1 + leading_whitespace(s.drop_first())
    } else {
        0
    }
}

/// The number of whitespace characters at the end of `s`.
pub open spec fn trailing_whitespace(s: Seq<char>) -> nat
    decreases s.len(),
{
    if s.len() > 0 && is_whitespace(s.last()) {
        1 + trailing_whitespace(s.drop_last())
    } else {
        0
    }
}

/// `s` without leading and trailing whitespace, as `str::trim` gives it.
pub open spec fn trimmed(s: Seq<char>) -> Seq<char> {
    let front = s.skip(leading_whitespace(s) as int);
    front.take(front.len() - trailing_whitespace(front))
}

/// The index of the first `c` in `s`.
pub open spec fn first_index_of(s: Seq<char>, c: char) -> Option<int>
    decreases s.len(),
{
    if s.len() == 0 {
        None
    } else if s.last() == c {
        match first_index_of(s.drop_last(), c) {
            Some(i) => Some(i),
            None => Some(s.len() - 1),
        }
    } else {
        first_index_of(s.drop_last(), c)
    }
}

/// The parts of `s` before and after the first `c`, as `str::split_once`
/// gives them.
pub open spec fn split_once(s: Seq<char>, c: char) -> Option<(Seq<char>, Seq<char>)> {
    match first_index_of(s, c) {
        Some(i) => Some((s.take(i), s.skip(i + 1))),
        None => None,
    }
}

/// `c` is an ASCII decimal digit.
pub open spec fn is_digit(c: char) -> bool {
    '0' <= c <= '9'
}

/// The value of the decimal digit `c`.
pub open spec fn digit_value(c: char) -> int {
    c as int - '0' as int
}

/// Reads the digits `digits[i..]` after the value `acc` of those before them,
/// left to right: the first character that is no digit fails with
/// `InvalidDigit`, the first digit that takes the value above `max` fails
/// with `PosOverflow`.
pub open spec fn scan_digits(digits: Seq<char>, i: int, acc: int, max: int) -> Result<
    int,
    ParseIntErrorKind,
>
    decreases digits.len() - i,
{
    if i < 0 || i >= digits.len() {
        Ok(acc)
    } else if !is_digit(digits[i]) {
        Err(ParseIntErrorKind::InvalidDigit)
    } else if acc * 10 + digit_value(digits[i]) > max {
        Err(ParseIntErrorKind::PosOverflow)
    } else {
        scan_digits(digits, i + 1, acc * 10 + digit_value(digits[i]), max)
    }
}

/// The unsigned integer in `s` of a type whose largest value is `max`, as
/// `str::parse` reads it: an optional `+`, then one or more decimal digits.
pub open spec fn parse_unsigned(s: Seq<char>, max: int) -> Result<int, ParseIntErrorKind> {
    if s.len() == 0 {
        Err(ParseIntErrorKind::Empty)
    } else if s[0] == '+' && s.len() == 1 {
        Err(ParseIntErrorKind::InvalidDigit)
    } else if s[0] == '+' {
        scan_digits(s.drop_first(), 0, 0, max)
    } else {
        scan_digits(s, 0, 0, max)
    }
}

/// A value read by `scan_digits` stays within `[acc, max]`.
pub proof fn lemma_scan_digits_bounded(digits: Seq<char>, i: int, acc: int, max: int)
    requires
        0 <= acc <= max,
    ensures
        scan_digits(digits, i, acc, max) matches Ok(v) ==> acc <= v <= max,
    decreases digits.len() - i,
{
    if 0 <= i < digits.len() && is_digit(digits[i]) && acc * 10 + digit_value(digits[i]) <= max {
        lemma_scan_digits_bounded(digits, i + 1, acc * 10 + digit_value(digits[i]), max);
    }
}

/// The characters of `s`.
pub fn chars_of(s: &str) -> (chars: Vec<char>)
    ensures
        chars@ == s@,
{
    let n = s.unicode_len();
    let mut chars: Vec<char> = Vec::new();
    let mut i: usize = 0;
    while i < n
        invariant
            n == s@.len(),
            i <= n,
            chars@ == s@.take(i as int),
        decreases n - i,
    {
        chars.push(s.get_char(i));
        i += 1;
        assert(chars@ =~= s@.take(i as int));
    }
    assert(chars@ =~= s@);
    chars
}

/// `a` and `b` hold the same characters.
pub fn same_text(a: &str, b: &str) -> (same: bool)
    ensures
        same == (a@ == b@),
{
    let n = a.unicode_len();
    if n != b.unicode_len() {
        return false;
    }
    let mut i: usize = 0;
    while i < n
        invariant
            n == a@.len(),
            n == b@.len(),
            i <= n,
            forall|j: int| 0 <= j < i ==> a@[j] == b@[j],
        decreases n - i,
    {
        if a.get_char(i) != b.get_char(i) {
            return false;
        }
        i = i + 1;
    }
    assert(a@ =~= b@);
    true
}

/// `c` has the Unicode White_Space property.
pub fn char_is_whitespace(c: char) -> (white: bool)
    ensures
        white == is_whitespace(c),
{
    ('\u{9}' <= c && c <= '\u{d}') || c == ' ' || c == '\u{85}' || c == '\u{a0}' || c
        == '\u{1680}' || ('\u{2000}' <= c && c <= '\u{200a}') || c == '\u{2028}' || c
        == '\u{2029}' || c == '\u{202f}' || c == '\u{205f}' || c == '\u{3000}'
}

/// Leading whitespace of `s[start..]` counts one more than that of
/// `s[start + 1..]` when `s[start]` is whitespace.
proof fn lemma_leading_step(s: Seq<char>, start: int)
    requires
        0 <= start < s.len(),
    ensures
        is_whitespace(s[start]) ==> leading_whitespace(s.skip(start)) == 1 + leading_whitespace(
            s.skip(start + 1),
        ),
        !is_whitespace(s[start]) ==> leading_whitespace(s.skip(start)) == 0,
{
    assert(s.skip(start).drop_first() =~= s.skip(start + 1));
}

/// Trailing whitespace of `s[..end]` counts one more than that of
/// `s[..end - 1]` when `s[end - 1]` is whitespace.
proof fn lemma_trailing_step(s: Seq<char>, end: int)
    requires
        0 < end <= s.len(),
    ensures
        is_whitespace(s[end - 1]) ==> trailing_whitespace(s.take(end)) == 1
            + trailing_whitespace(s.take(end - 1)),
        !is_whitespace(s[end - 1]) ==> trailing_whitespace(s.take(end)) == 0,
{
    assert(s.take(end).drop_last() =~= s.take(end - 1));
}

/// The bounds `[start, end)` of `s` without its leading and trailing
/// whitespace.
pub fn trim_bounds(s: &Vec<char>) -> (bounds: (usize, usize))
    ensures
        bounds.0 <= bounds.1 <= s@.len(),
        s@.subrange(bounds.0 as int, bounds.1 as int) == trimmed(s@),
{
    let n = s.len();
    let mut start: usize = 0;
    assert(s@.skip(0) =~= s@);
    while start < n && char_is_whitespace(s[start])
        invariant
            start <= n == s@.len(),
            leading_whitespace(s@) == start + leading_whitespace(s@.skip(start as int)),
        decreases n - start,
    {
        proof {
            lemma_leading_step(s@, start as int);
        }
        start += 1;
    }
    proof {
        if start < n {
            lemma_leading_step(s@, start as int);
        } else {
            assert(s@.skip(start as int).len() == 0);
        }
    }
    let ghost front = s@.skip(start as int);
    let mut end: usize = n;
    assert(front.take(front.len() as int) =~= front);
    while end > start && char_is_whitespace(s[end - 1])
        invariant
            start <= end <= n == s@.len(),
            front == s@.skip(start as int),
            trailing_whitespace(front) == (n - end) + trailing_whitespace(
                front.take(end - start),
            ),
        decreases end - start,
    {
        proof {
            lemma_trailing_step(front, end - start);
        }
        end -= 1;
    }
    proof {
        if end > start {
            lemma_trailing_step(front, end - start);
        } else {
            assert(front.take(0).len() == 0);
        }
        assert(s@.subrange(start as int, end as int) =~= front.take(front.len() - trailing_whitespace(front)));
    }
    (start, end)
}

/// The index of the first `c` in `s`, or `None`.
pub fn find_char(s: &Vec<char>, c: char) -> (index: Option<usize>)
    ensures
        match index {
            Some(i) => i < s@.len() && s@[i as int] == c && first_index_of(s@, c) == Some(
                i as int,
            ),
            None => first_index_of(s@, c) == None::<int>,
        },
{
    let n = s.len();
    let mut i: usize = 0;
    while i < n
        invariant
            i <= n == s@.len(),
            first_index_of(s@.take(i as int), c) == None::<int>,
        decreases n - i,
    {
        if s[i] == c {
            proof {
                lemma_first_index_extends(s@, c, i as int);
            }
            return Some(i);
        }
        proof {
            assert(s@.take(i + 1).drop_last() =~= s@.take(i as int));
        }
        i += 1;
    }
    assert(s@.take(n as int) =~= s@);
    None
}

/// The index of the first `c` in `s[from..to]`, counted from the start of
/// `s`, or `None`.
pub fn find_char_in(s: &Vec<char>, c: char, from: usize, to: usize) -> (index: Option<usize>)
    requires
        from <= to <= s@.len(),
    ensures
        match index {
            Some(i) => from <= i < to && s@[i as int] == c && first_index_of(
                s@.subrange(from as int, to as int),
                c,
            ) == Some(i - from),
            None => first_index_of(s@.subrange(from as int, to as int), c) == None::<int>,
        },
{
    let ghost part = s@.subrange(from as int, to as int);
    let mut i: usize = from;
    while i < to
        invariant
            from <= i <= to <= s@.len(),
            part == s@.subrange(from as int, to as int),
            first_index_of(part.take(i - from), c) == None::<int>,
        decreases to - i,
    {
        if s[i] == c {
            proof {
                assert(part[i - from] == c);
                lemma_first_index_extends(part, c, i - from);
            }
            return Some(i);
        }
        proof {
            assert(part.take(i - from + 1).drop_last() =~= part.take(i - from));
        }
        i += 1;
    }
    assert(part.take(to - from) =~= part);
    None
}

/// Where `c` first occurs at `i`, it is the first occurrence in every longer
/// prefix of `s`.
proof fn lemma_first_index_extends(s: Seq<char>, c: char, i: int)
    requires
        0 <= i < s.len(),
        s[i] == c,
        first_index_of(s.take(i), c) == None::<int>,
    ensures
        first_index_of(s, c) == Some(i),
    decreases s.len() - i,
{
    lemma_first_index_in_prefix(s, c, i, s.len() as int);
    assert(s.take(s.len() as int) =~= s);
}

/// The first occurrence at `i` stays the first in every prefix
/// `s[..end]` that holds it.
proof fn lemma_first_index_in_prefix(s: Seq<char>, c: char, i: int, end: int)
    requires
        0 <= i < end <= s.len(),
        s[i] == c,
        first_index_of(s.take(i), c) == None::<int>,
    ensures
        first_index_of(s.take(end), c) == Some(i),
    decreases end - i,
{
    if end == i + 1 {
        assert(s.take(end).drop_last() =~= s.take(i));
    } else {
        lemma_first_index_in_prefix(s, c, i, end - 1);
        assert(s.take(end).drop_last() =~= s.take(end - 1));
    }
}

/// Reads the unsigned integer in `s[start..end]` of a type whose largest
/// value is `max`, as `str::parse` does.
pub fn parse_unsigned_in(s: &Vec<char>, start: usize, end: usize, max: u64) -> (value: Result<
    u64,
    ParseIntErrorKind,
>)
    requires
        start <= end <= s@.len(),
    ensures
        value matches Ok(v) ==> v <= max,
        match value {
            Ok(v) => parse_unsigned(s@.subrange(start as int, end as int), max as int) == Ok::<
                int,
                ParseIntErrorKind,
            >(v as int),
            Err(e) => parse_unsigned(s@.subrange(start as int, end as int), max as int) == Err::<
                int,
                ParseIntErrorKind,
            >(e),
        },
{
    let ghost text = s@.subrange(start as int, end as int);
    if start == end {
        return Err(ParseIntErrorKind::Empty);
    }
    let mut i = start;
    if s[start] == '+' {
        if end - start == 1 {
            return Err(ParseIntErrorKind::InvalidDigit);
        }
        i = start + 1;
    }
    let ghost base = i as int;
    let ghost digits = s@.subrange(i as int, end as int);
    assert(s[start as int] == '+' ==> digits =~= text.drop_first());
    assert(s[start as int] != '+' ==> digits =~= text);
    assert(text[0] == s[start as int]);
    assert(parse_unsigned(text, max as int) == scan_digits(digits, 0, 0, max as int));
    let mut acc: u64 = 0;
    while i < end
        invariant
            start <= base <= i <= end <= s@.len(),
            digits == s@.subrange(base, end as int),
            parse_unsigned(s@.subrange(start as int, end as int), max as int) == scan_digits(
                digits,
                0,
                0,
                max as int,
            ),
            acc <= max,
            scan_digits(digits, 0, 0, max as int) == scan_digits(
                digits,
                i - base,
                acc as int,
                max as int,
            ),
        decreases end - i,
    {
        let c = s[i];
        assert(digits[i - base] == c);
        if !('0' <= c && c <= '9') {
            return Err(ParseIntErrorKind::InvalidDigit);
        }
        let d = (c as u32 - '0' as u32) as u64;
        if d > max || acc > (max - d) / 10 {
            assert(acc * 10 + d > max) by (nonlinear_arith)
                requires
                    d > max || acc > (max - d) / 10,
                    max >= 0,
                    acc >= 0,
            ;
            return Err(ParseIntErrorKind::PosOverflow);
        }
        assert(acc * 10 + d <= max) by (nonlinear_arith)
            requires
                acc <= (max - d) / 10,
                d <= max,
        ;
        acc = acc * 10 + d;
        i += 1;
    }
    Ok(acc)
}

/// The character of the decimal digit `d`.
pub open spec fn digit_char(d: int) -> char {
    (d + '0' as int) as char
}

/// The decimal digits of `n`, most significant first, as `{}` formats it.
pub open spec fn decimal(n: nat) -> Seq<char>
    decreases n,
{
    if n < 10 {
        seq![digit_char(n as int)]
    } else {
        decimal(n / 10) + seq![digit_char((n % 10) as int)]
    }
}

/// The one-character text of the decimal digit `d`.
fn digit_str(d: u32) -> (text: &'static str)
    requires
        d < 10,
    ensures
        text@ == seq![digit_char(d as int)],
{
    proof {
        reveal_strlit("0");
        reveal_strlit("1");
        reveal_strlit("2");
        reveal_strlit("3");
        reveal_strlit("4");
        reveal_strlit("5");
        reveal_strlit("6");
        reveal_strlit("7");
        reveal_strlit("8");
        reveal_strlit("9");
    }
    let text = match d {
        0 => "0",
        1 => "1",
        2 => "2",
        3 => "3",
        4 => "4",
        5 => "5",
        6 => "6",
        7 => "7",
        8 => "8",
        _ => "9",
    };
    assert(text@ =~= seq![digit_char(d as int)]);
    text
}

/// The decimal digits of `n`, as `{}` formats it.
pub fn decimal_string(n: u32) -> (text: String)
    ensures
        text@ == decimal(n as nat),
    decreases n,
{
    if n < 10 {
        String::from_str(digit_str(n))
    } else {
        decimal_string(n / 10).concat(digit_str(n % 10))
    }
}

} // verus!
