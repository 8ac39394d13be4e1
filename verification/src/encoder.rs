//! Settings of the video encoder: its parameters and the `key=value` option
//! list handed to it.
use crate::duration::{Duration, NANOS_PER_SEC};
use crate::text::{first_index_of, find_char_in};
use vstd::prelude::*;
use vstd::string::*;

verus! {

/// The encoder options used where none are given.
pub const DEFAULT_X264_OPTS: &'static str = "preset=veryslow,crf=18";

/// The frame rate, frame size and bit rate of a video.
#[derive(Debug, Clone, Copy)]
pub struct VideoParams {
    pub fps: i32,
    pub width: u32,
    pub height: u32,
    pub bitrate: usize,
}

/// The key and value of the option `piece`, which must hold exactly one
/// `=`.
pub open spec fn option_pair(piece: Seq<char>) -> Option<(Seq<char>, Seq<char>)> {
    match first_index_of(piece, '=') {
        None => None,
        Some(e) => match first_index_of(piece.skip(e + 1), '=') {
            Some(_) => None,
            None => Some((piece.take(e), piece.skip(e + 1))),
        },
    }
}

/// The options in `text`, read in order: `text` is split at each `,` (an
/// empty piece after the last `,` is no option), and each piece must be
/// `key=value` with exactly one `=`; `None` where one is not.
pub open spec fn options_in(text: Seq<char>) -> Option<Seq<(Seq<char>, Seq<char>)>>
    decreases text.len(),
{
    match first_index_of(text, ',') {
        Some(i) => {
            if 0 <= i < text.len() {
                match option_pair(text.take(i)) {
                    None => None,
                    Some(pair) => match options_in(text.skip(i + 1)) {
                        None => None,
                        Some(rest) => Some(seq![pair] + rest),
                    },
                }
            } else {
                None
            }
        },
        None => {
            if text.len() == 0 {
                Some(Seq::empty())
            } else {
                match option_pair(text) {
                    None => None,
                    Some(pair) => Some(seq![pair]),
                }
            }
        },
    }
}

/// The texts of key and value pairs.
pub open spec fn pair_views(pairs: Seq<(String, String)>) -> Seq<(Seq<char>, Seq<char>)> {
    pairs.map_values(|p: (String, String)| (p.0@, p.1@))
}

/// The first index of `c` in `s` lies in `s`.
proof fn lemma_first_index_in_range(s: Seq<char>, c: char)
    ensures
        first_index_of(s, c) matches Some(i) ==> 0 <= i < s.len() && s[i] == c,
    decreases s.len(),
{
    if s.len() > 0 {
        lemma_first_index_in_range(s.drop_last(), c);
    }
}

/// The key and value of the option in `s[from..to]`.
fn read_option(text: &str, s: &Vec<char>, from: usize, to: usize) -> (pair: Option<(String, String)>)
    requires
        s@ == text@,
        from <= to <= s@.len(),
    ensures
        match pair {
            Some(p) => option_pair(s@.subrange(from as int, to as int)) == Some((p.0@, p.1@)),
            None => option_pair(s@.subrange(from as int, to as int)) is None,
        },
{
    let ghost piece = s@.subrange(from as int, to as int);
    match find_char_in(s, '=', from, to) {
        None => None,
        Some(e) => {
            assert(s@.subrange(e + 1, to as int) =~= piece.skip(e - from + 1));
            match find_char_in(s, '=', e + 1, to) {
                Some(_) => None,
                None => {
                    assert(s@.subrange(from as int, e as int) =~= piece.take(e - from));
                    let key = String::from_str(text.substring_char(from, e));
                    let value = String::from_str(text.substring_char(e + 1, to));
                    Some((key, value))
                },
            }
        },
    }
}

/// Reads the encoder options `s`: comma-separated `key=value` pairs, in
/// order; `None` where a piece is not exactly one key and one value.
pub fn parse_opts(s: String) -> (options: Option<Vec<(String, String)>>)
    ensures
        match options {
            Some(pairs) => options_in(s@) == Some(pair_views(pairs@)),
            None => options_in(s@) is None,
        },
{
    let text = s.as_str();
    let chars = crate::text::chars_of(text);
    let n = chars.len();
    let mut pairs: Vec<(String, String)> = Vec::new();
    let mut pos: usize = 0;
    assert(chars@.subrange(0, n as int) =~= chars@);
    while pos < n
        invariant
            chars@ == s@,
            text@ == s@,
            n == chars@.len(),
            pos <= n,
            options_in(s@) == match options_in(chars@.subrange(pos as int, n as int)) {
                None => None,
                Some(rest) => Some(pair_views(pairs@) + rest),
            },
        decreases n - pos,
    {
        let ghost rest = chars@.subrange(pos as int, n as int);
        match find_char_in(&chars, ',', pos, n) {
            Some(i) => {
                proof {
                    lemma_first_index_in_range(rest, ',');
                    assert(rest.take(i - pos) =~= chars@.subrange(pos as int, i as int));
                    assert(rest.skip(i - pos + 1) =~= chars@.subrange(i + 1, n as int));
                }
                match read_option(text, &chars, pos, i) {
                    None => return None,
                    Some(pair) => {
                        let ghost before = pairs@;
                        pairs.push(pair);
                        proof {
                            assert(pair_views(pairs@) =~= pair_views(before) + seq![(pair.0@, pair.1@)]);
                            match options_in(chars@.subrange(i + 1, n as int)) {
                                None => {},
                                Some(r) => {
                                    assert(pair_views(before) + (seq![(pair.0@, pair.1@)] + r)
                                        =~= pair_views(pairs@) + r);
                                },
                            }
                        }
                        pos = i + 1;
                    },
                }
            },
            None => {
                match read_option(text, &chars, pos, n) {
                    None => return None,
                    Some(pair) => {
                        let ghost before = pairs@;
                        pairs.push(pair);
                        proof {
                            assert(pair_views(pairs@) =~= pair_views(before) + seq![(pair.0@, pair.1@)]);
                            assert(chars@.subrange(n as int, n as int) =~= Seq::<char>::empty());
                            assert(pair_views(pairs@) + Seq::<(Seq<char>, Seq<char>)>::empty() =~= pair_views(pairs@));
                        }
                        pos = n;
                    },
                }
            },
        }
    }
    proof {
        assert(chars@.subrange(pos as int, n as int) =~= Seq::<char>::empty());
        assert(pair_views(pairs@) + Seq::<(Seq<char>, Seq<char>)>::empty() =~= pair_views(pairs@));
    }
    Some(pairs)
}

/// Progress is printed while logging is on, once ten frames were encoded or
/// a second passed since the last print.
pub fn should_log_progress(
    logging_enabled: bool,
    frame_count: usize,
    last_log_frame_count: usize,
    since_last_log: Duration,
) -> (print: bool)
    requires
        last_log_frame_count <= frame_count,
        since_last_log.wf(),
    ensures
        print == (logging_enabled && (frame_count - last_log_frame_count >= 10
            || since_last_log@ >= NANOS_PER_SEC)),
{
    let one_second = Duration::from_secs(1);
    logging_enabled && !(frame_count - last_log_frame_count < 10 && !since_last_log.ge(&one_second))
}

} // verus!
