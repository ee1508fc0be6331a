use headr::{
    get_args, head_bytes, head_lines, parse_positive_int, parse_positive_int_self, resolve, Config,
    CountOption, HeadError,
};

fn tokens(words: &[&str]) -> Vec<String> {
    words.iter().map(|w| w.to_string()).collect()
}

fn args(words: &[&str]) -> Result<Config, HeadError> {
    let mut all = vec!["headr"];
    all.extend_from_slice(words);
    get_args(tokens(&all))
}

#[test]
fn test_parse_positive_int() {
    let res = parse_positive_int("3");
    assert!(res.is_ok());

    assert_eq!(res.unwrap(), 3);

    let res = parse_positive_int("foo");
    assert!(res.is_err());
    assert_eq!(res.unwrap_err().to_string(), "foo".to_string());

    let res = parse_positive_int("0");
    assert!(res.is_err());
    assert_eq!(res.unwrap_err().to_string(), "0".to_string());
}

#[test]
fn parse_positive_int_takes_every_positive_numeral() {
    for n in [1usize, 7, 10, 42, 1000, 65535, usize::MAX] {
        assert_eq!(parse_positive_int(&n.to_string()), Ok(n));
    }
    assert_eq!(parse_positive_int("007"), Ok(7));
}

#[test]
fn parse_positive_int_rejects_what_is_no_count() {
    for bad in ["", "-1", "+", "+5", "+0", "1.5", " 3", "3 ", "1_000", "18446744073709551616", "00"] {
        assert_eq!(parse_positive_int(bad), Err(bad.to_string()));
    }
}

#[test]
fn parse_positive_int_self_reports_zero_as_zero() {
    assert_eq!(parse_positive_int_self("12"), Ok(12));
    assert_eq!(parse_positive_int_self("0"), Err("0".to_string()));
    assert_eq!(parse_positive_int_self("000"), Err("0".to_string()));
    assert_eq!(parse_positive_int_self("foo"), Err("foo".to_string()));
    assert_eq!(parse_positive_int_self("+5"), Err("+5".to_string()));
    assert_eq!(parse_positive_int_self("+0"), Err("+0".to_string()));
}

#[test]
fn zero_count_is_an_invalid_value() {
    match args(&["-n", "0"]) {
        Err(HeadError::InvalidValue { option, value }) => {
            assert_eq!(option, CountOption::Lines);
            assert_eq!(value, "0");
        }
        other => panic!("unexpected {:?}", other),
    }
    match args(&["-c", "0"]) {
        Err(HeadError::InvalidValue { option, value }) => {
            assert_eq!(option, CountOption::Bytes);
            assert_eq!(value, "0");
        }
        other => panic!("unexpected {:?}", other),
    }
}

#[test]
fn non_numeric_count_is_an_invalid_value_with_its_message() {
    let err = args(&["--lines", "foo"]).unwrap_err();
    assert!(matches!(err, HeadError::InvalidValue { option: CountOption::Lines, .. }));
    assert_eq!(
        err.message(),
        "error: invalid value 'foo' for '--lines <LINES>': invalid digit found in string"
    );
    let err = args(&["-n", "+5"]).unwrap_err();
    assert!(matches!(err, HeadError::InvalidValue { option: CountOption::Lines, .. }));
    let err = args(&["-c", "4x"]).unwrap_err();
    assert_eq!(
        err.message(),
        "error: invalid value '4x' for '--bytes <BYTES>': invalid digit found in string"
    );
}

#[test]
fn lines_and_bytes_conflict_in_either_order() {
    for words in [
        &["--lines", "5", "--bytes", "3"][..],
        &["--bytes", "3", "--lines", "5"][..],
        &["-n", "0", "-c", "foo"][..],
    ] {
        let err = args(words).unwrap_err();
        assert!(matches!(
            err,
            HeadError::ConflictingOptions { first: CountOption::Lines, second: CountOption::Bytes }
        ));
        assert_eq!(
            err.message(),
            "the argument '--lines <LINES>' cannot be used with '--bytes <BYTES>'"
        );
    }
}

#[test]
fn no_files_means_standard_input() {
    let c = args(&[]).unwrap();
    assert_eq!(c.files(), &vec!["-".to_string()]);
    assert_eq!(c.lines(), 10);
    assert_eq!(c.bytes(), None);
    let c = resolve(Some(vec![]), None, Some("3".to_string())).unwrap();
    assert_eq!(c.files(), &vec!["-".to_string()]);
    assert_eq!(c.bytes(), Some(3));
}

#[test]
fn short_lines_option_with_one_file() {
    let c = args(&["-n", "5", "file.txt"]).unwrap();
    assert_eq!(c.lines(), 5);
    assert_eq!(c.bytes(), None);
    assert_eq!(c.files(), &vec!["file.txt".to_string()]);
}

#[test]
fn files_keep_their_order() {
    let c = args(&["b.txt", "-c", "8", "a.txt", "-"]).unwrap();
    assert_eq!(c.files(), &tokens(&["b.txt", "a.txt", "-"]));
    assert_eq!(c.bytes(), Some(8));
    assert_eq!(c.lines(), 10);
}

#[test]
fn unknown_option_is_a_command_line_error() {
    assert!(matches!(args(&["--words", "3"]), Err(HeadError::CommandLine(_))));
    assert!(matches!(args(&["-n"]), Err(HeadError::CommandLine(_))));
}

#[test]
fn option_values_state_the_configuration_again() {
    for words in [
        &["-n", "25", "x", "y"][..],
        &["--bytes", "0042"][..],
        &[][..],
    ] {
        let c = args(words).unwrap();
        let (files, lines, bytes) = c.option_values();
        assert_eq!(resolve(files, lines, bytes).unwrap(), c);
    }
    let c = args(&["-n", "25", "x"]).unwrap();
    assert_eq!(c.option_values(), (Some(tokens(&["x"])), Some("25".to_string()), None));
    let c = args(&["-c", "0042"]).unwrap();
    assert_eq!(c.option_values(), (Some(tokens(&["-"])), None, Some("42".to_string())));
}

#[test]
fn round_trip_through_the_command_line() {
    let c = args(&["-n", "7", "a", "b"]).unwrap();
    let (files, lines, _) = c.option_values();
    let mut words = vec!["-n".to_string(), lines.unwrap()];
    words.extend(files.unwrap());
    let mut all = vec!["headr".to_string()];
    all.extend(words);
    assert_eq!(get_args(all).unwrap(), c);
}

#[test]
fn resolve_checks_lines_before_bytes_values() {
    let err = resolve(None, Some("x".to_string()), None).unwrap_err();
    assert!(matches!(err, HeadError::InvalidValue { option: CountOption::Lines, .. }));
    let err = resolve(None, None, Some("-2".to_string())).unwrap_err();
    assert!(matches!(err, HeadError::InvalidValue { option: CountOption::Bytes, .. }));
}

#[test]
fn file_error_message_names_the_path() {
    let e = HeadError::FileError { path: "missing.txt".to_string(), cause: "not found".to_string() };
    assert_eq!(e.message(), "missing.txt: not found");
}

#[test]
fn count_option_names_and_usage() {
    assert_eq!(CountOption::Lines.name(), "lines");
    assert_eq!(CountOption::Bytes.placeholder(), "BYTES");
    assert_eq!(CountOption::Lines.usage(), "--lines <LINES>");
}

#[test]
fn head_bytes_takes_a_prefix() {
    assert_eq!(head_bytes(b"hello", 3), b"hel".to_vec());
    assert_eq!(head_bytes(b"hello", 5), b"hello".to_vec());
    assert_eq!(head_bytes(b"hello", 9), b"hello".to_vec());
    assert_eq!(head_bytes(b"", 4), Vec::<u8>::new());
}

#[test]
fn head_lines_keeps_line_endings() {
    let text = b"one\ntwo\r\nthree\nfour";
    assert_eq!(head_lines(text, 1), b"one\n".to_vec());
    assert_eq!(head_lines(text, 2), b"one\ntwo\r\n".to_vec());
    assert_eq!(head_lines(text, 4), text.to_vec());
    assert_eq!(head_lines(text, 10), text.to_vec());
    assert_eq!(head_lines(text, 0), Vec::<u8>::new());
    assert_eq!(head_lines(b"", 3), Vec::<u8>::new());
    assert_eq!(head_lines(b"\n\n\n", 2), b"\n\n".to_vec());
}
