//! The command line: `--record <seconds>[.<milliseconds>]` asks for a video
//! of that length, `--size <width>x<height>` for a window of that size.
use crate::duration::{Duration, NANOS_PER_SEC};
use crate::text::{
    chars_of, find_char, parse_unsigned, parse_unsigned_in, split_once, trim_bounds, trimmed,
    ParseIntErrorKind,
};
use vstd::prelude::*;

verus! {

/// What the command line asks for.
#[derive(Debug, Clone, Copy)]
pub struct Args {
    pub inner_size: Option<(u32, u32)>,
    pub record_time: Option<Duration>,
}

/// Why the command line could not be read.
#[derive(Debug, Clone, Copy, PartialEq, Eq, Structural)]
pub enum ArgsError {
    /// A number in a value could not be read.
    ParseInt(ParseIntErrorKind),
    /// The value of `--size` holds no `x` between width and height.
    MissingSizeDelimiter,
}

/// The flag that asks for a recording.
pub open spec fn record_flag() -> Seq<char> {
    seq!['-', '-', 'r', 'e', 'c', 'o', 'r', 'd']
}

/// The flag that asks for a window size.
pub open spec fn size_flag() -> Seq<char> {
    seq!['-', '-', 's', 'i', 'z', 'e']
}

/// Nanoseconds in one millisecond.
pub const NANOS_PER_MILLI: u32 = 1_000_000;

/// The recording length of `--record <value>`: `None` where reading it
/// overflows, which the program does not survive.
pub open spec fn record_value(value: Seq<char>) -> Option<Result<Duration, ArgsError>> {
    match split_once(value, '.') {
        Some((sec, ms)) => match parse_unsigned(sec, u64::MAX as int) {
            Err(e) => Some(Err(ArgsError::ParseInt(e))),
            Ok(seconds) => match parse_unsigned(ms, u32::MAX as int) {
                Err(e) => Some(Err(ArgsError::ParseInt(e))),
                Ok(millis) => {
                    let nanos = millis * NANOS_PER_MILLI;
                    if nanos > u32::MAX || seconds + nanos / NANOS_PER_SEC as int > u64::MAX {
                        None
                    } else {
                        Some(
                            Ok(
                                Duration {
                                    secs: (seconds + nanos / NANOS_PER_SEC as int) as u64,
                                    nanos: (nanos % NANOS_PER_SEC as int) as u32,
                                },
                            ),
                        )
                    }
                },
            },
        },
        None => match parse_unsigned(value, u64::MAX as int) {
            Err(e) => Some(Err(ArgsError::ParseInt(e))),
            Ok(seconds) => Some(Ok(Duration { secs: seconds as u64, nanos: 0 })),
        },
    }
}

/// The window size of `--size <value>`.
pub open spec fn size_value(value: Seq<char>) -> Result<(u32, u32), ArgsError> {
    match split_once(value, 'x') {
        None => Err(ArgsError::MissingSizeDelimiter),
        Some((w, h)) => match parse_unsigned(w, u32::MAX as int) {
            Err(e) => Err(ArgsError::ParseInt(e)),
            Ok(width) => match parse_unsigned(h, u32::MAX as int) {
                Err(e) => Err(ArgsError::ParseInt(e)),
                Ok(height) => Ok((width as u32, height as u32)),
            },
        },
    }
}

/// `args` after the flag `flag` with its value `value`; flags other than
/// `--record` and `--size` (around whitespace) leave them as they are.
pub open spec fn apply_pair(args: Args, flag: Seq<char>, value: Seq<char>) -> Option<
    Result<Args, ArgsError>,
> {
    let f = trimmed(flag);
    if f == record_flag() {
        match record_value(value) {
            None => None,
            Some(Err(e)) => Some(Err(e)),
            Some(Ok(d)) => Some(Ok(Args { record_time: Some(d), ..args })),
        }
    } else if f == size_flag() {
        match size_value(value) {
            Err(e) => Some(Err(e)),
            Ok(size) => Some(Ok(Args { inner_size: Some(size), ..args })),
        }
    } else {
        Some(Ok(args))
    }
}

/// The number of flag and value pairs in a command line whose first word
/// names the program.
pub open spec fn pair_count(n: int) -> int {
    if n >= 1 {
        (n - 1) / 2
    } else {
        0
    }
}

/// The command line `words` read through its first `k` pairs
/// `(words[1], words[2])`, `(words[3], words[4])`, ...: the first error
/// stops the reading, and `None` stands for an overflow.
pub open spec fn parse_pairs(words: Seq<Seq<char>>, k: int) -> Option<Result<Args, ArgsError>>
    decreases k,
{
    if k <= 0 {
        Some(Ok(Args { inner_size: None, record_time: None }))
    } else {
        match parse_pairs(words, k - 1) {
            None => None,
            Some(Err(e)) => Some(Err(e)),
            Some(Ok(a)) => apply_pair(a, words[2 * k - 1], words[2 * k]),
        }
    }
}

/// The texts of the words of a command line.
pub open spec fn word_views(args: Seq<String>) -> Seq<Seq<char>> {
    args.map_values(|s: String| s@)
}

/// The command line `args` read in full; `None` where reading it overflows.
pub open spec fn parse_command_line(args: Seq<String>) -> Option<Result<Args, ArgsError>> {
    parse_pairs(word_views(args), pair_count(args.len() as int))
}

/// Once reading has overflowed it stays so.
proof fn lemma_overflow_persists(words: Seq<Seq<char>>, k: int, later: int)
    requires
        k <= later,
        parse_pairs(words, k) is None,
    ensures
        parse_pairs(words, later) is None,
    decreases later - k,
{
    if k < later {
        lemma_overflow_persists(words, k, later - 1);
    }
}

/// Once reading has failed it keeps that error.
proof fn lemma_error_persists(words: Seq<Seq<char>>, k: int, later: int, e: ArgsError)
    requires
        0 <= k <= later,
        parse_pairs(words, k) == Some(Err::<Args, ArgsError>(e)),
    ensures
        parse_pairs(words, later) == Some(Err::<Args, ArgsError>(e)),
    decreases later - k,
{
    if k < later {
        lemma_error_persists(words, k, later - 1, e);
    }
}

/// Reading the first `k` pairs looks only at the words of those pairs.
proof fn lemma_pairs_read_prefix(words: Seq<Seq<char>>, longer: Seq<Seq<char>>, k: int)
    requires
        2 * k < words.len() <= longer.len(),
        forall|i: int| 0 <= i < words.len() ==> longer[i] == words[i],
    ensures
        parse_pairs(longer, k) == parse_pairs(words, k),
    decreases k,
{
    if k > 0 {
        lemma_pairs_read_prefix(words, longer, k - 1);
        assert(longer[2 * k - 1] == words[2 * k - 1]);
        assert(longer[2 * k] == words[2 * k]);
    }
}

/// A command line extended by one more flag and its value reads as the
/// command line followed by that pair: a flag given later overrides the same
/// flag given earlier, and an earlier error or overflow stands.
pub proof fn lemma_extra_pair(args: Seq<String>, flag: String, value: String)
    requires
        args.len() % 2 == 1,
    ensures
        parse_command_line(args.push(flag).push(value)) == match parse_command_line(args) {
            None => None,
            Some(Err(e)) => Some(Err(e)),
            Some(Ok(a)) => apply_pair(a, flag@, value@),
        },
{
    let longer = args.push(flag).push(value);
    let words = word_views(args);
    let longer_words = word_views(longer);
    let k = pair_count(args.len() as int);
    assert(pair_count(longer.len() as int) == k + 1);
    assert forall|i: int| 0 <= i < words.len() implies longer_words[i] == words[i] by {
        assert(longer[i] == args[i]);
    }
    lemma_pairs_read_prefix(words, longer_words, k);
    assert(longer_words[2 * (k + 1) - 1] == flag@);
    assert(longer_words[2 * (k + 1)] == value@);
}

/// The characters `s[start..end]` are the word `word`.
fn is_word(s: &Vec<char>, start: usize, end: usize, word: &[char]) -> (same: bool)
    requires
        start <= end <= s@.len(),
    ensures
        same == (s@.subrange(start as int, end as int) == word@),
{
    if end - start != word.len() {
        return false;
    }
    let mut i: usize = 0;
    while i < word.len()
        invariant
            start <= end <= s@.len(),
            end - start == word@.len(),
            i <= word@.len(),
            forall|j: int| 0 <= j < i ==> s@[start + j] == word@[j],
        decreases word@.len() - i,
    {
        if s[start + i] != word[i] {
            assert(s@.subrange(start as int, end as int)[i as int] != word@[i as int]);
            return false;
        }
        i += 1;
    }
    assert(s@.subrange(start as int, end as int) =~= word@);
    true
}

/// The recording length of `--record <value>`; `None` where it overflows.
fn read_record_value(value: &Vec<char>) -> (d: Option<Result<Duration, ArgsError>>)
    ensures
        record_value(value@) == d,
{
    match find_char(value, '.') {
        Some(dot) => {
            assert(value@.take(dot as int) =~= value@.subrange(0, dot as int));
            assert(value@.skip(dot + 1) =~= value@.subrange(dot + 1, value@.len() as int));
            let seconds = match parse_unsigned_in(value, 0, dot, u64::MAX) {
                Ok(v) => v,
                Err(e) => return Some(Err(ArgsError::ParseInt(e))),
            };
            let millis = match parse_unsigned_in(value, dot + 1, value.len(), u32::MAX as u64) {
                Ok(v) => v,
                Err(e) => return Some(Err(ArgsError::ParseInt(e))),
            };
            if millis > (u32::MAX / NANOS_PER_MILLI) as u64 {
                return None;
            }
            let millis = millis as u32;
            let nanos = millis * NANOS_PER_MILLI;
            if seconds > u64::MAX - (nanos / NANOS_PER_SEC) as u64 {
                return None;
            }
            Some(Ok(Duration::new(seconds, nanos)))
        },
        None => {
            assert(value@.subrange(0, value@.len() as int) =~= value@);
            match parse_unsigned_in(value, 0, value.len(), u64::MAX) {
                Ok(seconds) => Some(Ok(Duration::from_secs(seconds))),
                Err(e) => Some(Err(ArgsError::ParseInt(e))),
            }
        },
    }
}

/// The window size of `--size <value>`.
fn read_size_value(value: &Vec<char>) -> (size: Result<(u32, u32), ArgsError>)
    ensures
        size_value(value@) == size,
{
    let len = value.len();
    match find_char(value, 'x') {
        None => Err(ArgsError::MissingSizeDelimiter),
        Some(x) => {
            assert(value@.take(x as int) =~= value@.subrange(0, x as int));
            assert(value@.skip(x + 1) =~= value@.subrange(x + 1, value@.len() as int));
            let width = match parse_unsigned_in(value, 0, x, u32::MAX as u64) {
                Ok(v) => v,
                Err(e) => return Err(ArgsError::ParseInt(e)),
            };
            let height = match parse_unsigned_in(value, x + 1, len, u32::MAX as u64) {
                Ok(v) => v,
                Err(e) => return Err(ArgsError::ParseInt(e)),
            };
            Ok((width as u32, height as u32))
        },
    }
}

/// Reads the command line `args`, whose first word names the program: each
/// `--record` or `--size` flag (whitespace around the flag is ignored) is
/// followed by its value, later flags override earlier ones, unknown flags
/// are skipped with their value, and the first value that cannot be read
/// ends the reading with its error.
pub fn parse_args(args: &Vec<String>) -> (parsed: Result<Args, ArgsError>)
    requires
        parse_command_line(args@) is Some,
    ensures
        parse_command_line(args@) == Some(parsed),
{
    read_command_line(args).unwrap()
}

/// Reads the command line `args` as `parse_args` does, and gives `None`
/// where a `--record` value overflows (its milliseconds as nanoseconds
/// leave `u32`, or its length leaves the range of a duration), which
/// `parse_args` does not accept.
pub fn read_command_line(args: &Vec<String>) -> (read: Option<Result<Args, ArgsError>>)
    ensures
        read == parse_command_line(args@),
{
    let ghost words = word_views(args@);
    let ghost total = pair_count(args@.len() as int);
    let record_word = ['-', '-', 'r', 'e', 'c', 'o', 'r', 'd'];
    let size_word = ['-', '-', 's', 'i', 'z', 'e'];
    assert(record_word@ =~= record_flag());
    assert(size_word@ =~= size_flag());
    let mut parsed = Args { inner_size: None, record_time: None };
    let mut idx: usize = 1;
    proof {
        if args@.len() == 0 {
            assert(total == 0);
        }
    }
    while idx < args.len() && args.len() - idx >= 2
        invariant
            words == word_views(args@),
            total == pair_count(args@.len() as int),
            record_word@ == record_flag(),
            size_word@ == size_flag(),
            idx % 2 == 1,
            1 <= idx <= args@.len() + 1,
            idx <= args@.len() || args@.len() == 0,
            (idx - 1) / 2 <= total,
            idx + 1 >= args@.len() ==> (idx - 1) / 2 == total,
            parse_pairs(words, (idx - 1) / 2) == Some(Ok::<Args, ArgsError>(parsed)),
        decreases args@.len() - idx,
    {
        let ghost k = (idx - 1) / 2 + 1;
        assert(2 * k - 1 == idx && 2 * k == idx + 1);
        assert(k <= total);
        let flag = chars_of(args[idx].as_str());
        let value = chars_of(args[idx + 1].as_str());
        assert(flag@ == words[2 * k - 1]);
        assert(value@ == words[2 * k]);
        let (start, end) = trim_bounds(&flag);
        if is_word(&flag, start, end, &record_word) {
            match read_record_value(&value) {
                None => {
                    proof {
                        lemma_overflow_persists(words, k, total);
                    }
                    return None;
                },
                Some(Ok(d)) => {
                    parsed = Args { record_time: Some(d), ..parsed };
                },
                Some(Err(e)) => {
                    proof {
                        lemma_error_persists(words, k, total, e);
                    }
                    return Some(Err(e));
                },
            }
        } else if is_word(&flag, start, end, &size_word) {
            match read_size_value(&value) {
                Ok(size) => {
                    parsed = Args { inner_size: Some(size), ..parsed };
                },
                Err(e) => {
                    proof {
                        lemma_error_persists(words, k, total, e);
                    }
                    return Some(Err(e));
                },
            }
        }
        idx += 2;
    }
    Some(Ok(parsed))
}

} // verus!
