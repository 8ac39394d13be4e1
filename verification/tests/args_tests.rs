use pilka::args::{parse_args, read_command_line, ArgsError};
use pilka::duration::Duration;
use pilka::text::ParseIntErrorKind;

fn words(list: &[&str]) -> Vec<String> {
    list.iter().map(|s| s.to_string()).collect()
}

fn record_nanos(d: Option<Duration>) -> Option<(u64, u32)> {
    d.map(|d| (d.secs, d.nanos))
}

#[test]
fn args_empty_command_line() {
    let args = parse_args(&words(&["pilka"])).unwrap();
    assert_eq!(args.inner_size, None);
    assert!(args.record_time.is_none());
    let args = parse_args(&Vec::new()).unwrap();
    assert_eq!(args.inner_size, None);
}

#[test]
fn args_record_whole_seconds() {
    let args = parse_args(&words(&["pilka", "--record", "12"])).unwrap();
    assert_eq!(record_nanos(args.record_time), Some((12, 0)));
    let args = parse_args(&words(&["pilka", "--record", "+7"])).unwrap();
    assert_eq!(record_nanos(args.record_time), Some((7, 0)));
}

#[test]
fn args_record_fraction_is_milliseconds() {
    // The part after the dot counts milliseconds.
    let args = parse_args(&words(&["pilka", "--record", "1.5"])).unwrap();
    assert_eq!(record_nanos(args.record_time), Some((1, 5_000_000)));
    let args = parse_args(&words(&["pilka", "--record", "3.250"])).unwrap();
    assert_eq!(record_nanos(args.record_time), Some((3, 250_000_000)));
    let args = parse_args(&words(&["pilka", "--record", "0.1500"])).unwrap();
    assert_eq!(record_nanos(args.record_time), Some((1, 500_000_000)));
}

#[test]
fn args_size() {
    let args = parse_args(&words(&["pilka", "--size", "800x600"])).unwrap();
    assert_eq!(args.inner_size, Some((800, 600)));
    assert!(args.record_time.is_none());
}

#[test]
fn args_flag_around_whitespace() {
    let args = parse_args(&words(&["pilka", "  --size\t", "1x2"])).unwrap();
    assert_eq!(args.inner_size, Some((1, 2)));
    let args = parse_args(&words(&["pilka", "--size", " 1x2"])).unwrap_err();
    assert_eq!(args, ArgsError::ParseInt(ParseIntErrorKind::InvalidDigit));
}

#[test]
fn args_later_flags_override() {
    let args = parse_args(&words(&["pilka", "--size", "1x1", "--record", "2", "--size", "3x4"])).unwrap();
    assert_eq!(args.inner_size, Some((3, 4)));
    assert_eq!(record_nanos(args.record_time), Some((2, 0)));
}

#[test]
fn args_unknown_and_unpaired_words_are_skipped() {
    let args = parse_args(&words(&["pilka", "--fullscreen", "yes", "--size"])).unwrap();
    assert_eq!(args.inner_size, None);
    let args = parse_args(&words(&["pilka", "--size", "2x2", "--record"])).unwrap();
    assert_eq!(args.inner_size, Some((2, 2)));
    assert!(args.record_time.is_none());
}

#[test]
fn args_size_without_delimiter() {
    let err = parse_args(&words(&["pilka", "--size", "800"])).unwrap_err();
    assert_eq!(err, ArgsError::MissingSizeDelimiter);
}

#[test]
fn args_size_errors() {
    let err = parse_args(&words(&["pilka", "--size", "x600"])).unwrap_err();
    assert_eq!(err, ArgsError::ParseInt(ParseIntErrorKind::Empty));
    let err = parse_args(&words(&["pilka", "--size", "800x6y0"])).unwrap_err();
    assert_eq!(err, ArgsError::ParseInt(ParseIntErrorKind::InvalidDigit));
    let err = parse_args(&words(&["pilka", "--size", "4294967296x1"])).unwrap_err();
    assert_eq!(err, ArgsError::ParseInt(ParseIntErrorKind::PosOverflow));
    let args = parse_args(&words(&["pilka", "--size", "4294967295x0"])).unwrap();
    assert_eq!(args.inner_size, Some((u32::MAX, 0)));
}

#[test]
fn args_record_errors() {
    let err = parse_args(&words(&["pilka", "--record", "abc"])).unwrap_err();
    assert_eq!(err, ArgsError::ParseInt(ParseIntErrorKind::InvalidDigit));
    let err = parse_args(&words(&["pilka", "--record", ""])).unwrap_err();
    assert_eq!(err, ArgsError::ParseInt(ParseIntErrorKind::Empty));
    let err = parse_args(&words(&["pilka", "--record", "+"])).unwrap_err();
    assert_eq!(err, ArgsError::ParseInt(ParseIntErrorKind::InvalidDigit));
    let err = parse_args(&words(&["pilka", "--record", "-1"])).unwrap_err();
    assert_eq!(err, ArgsError::ParseInt(ParseIntErrorKind::InvalidDigit));
    let err = parse_args(&words(&["pilka", "--record", "18446744073709551616"])).unwrap_err();
    assert_eq!(err, ArgsError::ParseInt(ParseIntErrorKind::PosOverflow));
    let err = parse_args(&words(&["pilka", "--record", "1."])).unwrap_err();
    assert_eq!(err, ArgsError::ParseInt(ParseIntErrorKind::Empty));
    let err = parse_args(&words(&["pilka", "--record", "1x.5"])).unwrap_err();
    assert_eq!(err, ArgsError::ParseInt(ParseIntErrorKind::InvalidDigit));
}

#[test]
fn args_first_error_ends_reading() {
    let err = parse_args(&words(&["pilka", "--size", "big", "--record", "5"])).unwrap_err();
    assert_eq!(err, ArgsError::MissingSizeDelimiter);
}

#[test]
fn args_overflowing_record_is_refused() {
    assert!(read_command_line(&words(&["pilka", "--record", "1.4295"])).is_none());
    assert!(read_command_line(&words(&["pilka", "--record", "18446744073709551615.1000"])).is_none());
    let ok = read_command_line(&words(&["pilka", "--record", "1.4294"])).unwrap().unwrap();
    assert_eq!(record_nanos(ok.record_time), Some((5, 294_000_000)));
    let err = read_command_line(&words(&["pilka", "--size", "10", "--record", "1.9999"])).unwrap();
    assert_eq!(err.err(), Some(ArgsError::MissingSizeDelimiter));
}
