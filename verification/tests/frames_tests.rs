use pilka::duration::Duration;
use pilka::encoder::{parse_opts, should_log_progress, DEFAULT_X264_OPTS};
use pilka::frames::strip_row_padding;

#[test]
fn rows_lose_their_padding() {
    let frame: Vec<u8> = (0..12).collect();
    assert_eq!(strip_row_padding(&frame, 4, 3), vec![0, 1, 2, 4, 5, 6, 8, 9, 10]);
    assert_eq!(strip_row_padding(&frame, 6, 6), frame);
    assert_eq!(strip_row_padding(&frame, 12, 0), Vec::<u8>::new());
}

#[test]
fn rows_with_short_last_row() {
    let frame: Vec<u8> = (0..10).collect();
    assert_eq!(strip_row_padding(&frame, 4, 2), vec![0, 1, 4, 5, 8, 9]);
    assert_eq!(strip_row_padding(&[], 4, 2), Vec::<u8>::new());
}

#[test]
fn unpadded_length_is_rows_times_width() {
    let frame = vec![7u8; 256 * 10];
    assert_eq!(strip_row_padding(&frame, 256, 200).len(), 2000);
}

fn pairs(list: &[(&str, &str)]) -> Vec<(String, String)> {
    list.iter().map(|(k, v)| (k.to_string(), v.to_string())).collect()
}

#[test]
fn encoder_default_options() {
    assert_eq!(parse_opts(DEFAULT_X264_OPTS.to_string()), Some(pairs(&[("preset", "veryslow"), ("crf", "18")])));
}

#[test]
fn encoder_option_lists() {
    assert_eq!(parse_opts(String::new()), Some(vec![]));
    assert_eq!(parse_opts("a=b,".to_string()), Some(pairs(&[("a", "b")])));
    assert_eq!(parse_opts("a=,=b".to_string()), Some(pairs(&[("a", ""), ("", "b")])));
    assert_eq!(parse_opts("a=b,,c=d".to_string()), None);
    assert_eq!(parse_opts(",a=b".to_string()), None);
    assert_eq!(parse_opts("a=b=c".to_string()), None);
    assert_eq!(parse_opts("preset".to_string()), None);
    assert_eq!(parse_opts("a=b,c=d,".to_string()), Some(pairs(&[("a", "b"), ("c", "d")])));
}

#[test]
fn progress_logged_after_ten_frames_or_a_second() {
    let short = Duration { secs: 0, nanos: 999_999_999 };
    let second = Duration { secs: 1, nanos: 0 };
    assert!(!should_log_progress(true, 9, 0, short));
    assert!(should_log_progress(true, 10, 0, short));
    assert!(should_log_progress(true, 3, 2, second));
    assert!(!should_log_progress(false, 100, 0, second));
}
