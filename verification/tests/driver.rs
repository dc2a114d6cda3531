use memofib::driver::{parse_index, select_index, DriverError, OptLevel};

fn args(words: &[&str]) -> Vec<String> {
    words.iter().map(|w| w.to_string()).collect()
}

#[test]
fn plain_numbers_parse() {
    assert_eq!(parse_index("0"), Some(0));
    assert_eq!(parse_index("10"), Some(10));
    assert_eq!(parse_index("6765"), Some(6765));
    assert_eq!(parse_index("007"), Some(7));
}

#[test]
fn plus_sign_is_accepted() {
    assert_eq!(parse_index("+7"), Some(7));
    assert_eq!(parse_index("+"), None);
    assert_eq!(parse_index("++7"), None);
    assert_eq!(parse_index("7+"), None);
}

#[test]
fn largest_index_parses_and_the_next_does_not() {
    assert_eq!(parse_index("18446744073709551615"), Some(u64::MAX));
    assert_eq!(parse_index("18446744073709551616"), None);
    assert_eq!(parse_index("99999999999999999999999999"), None);
    assert_eq!(parse_index("00000000000000000000000000000012"), Some(12));
}

#[test]
fn text_that_is_no_number_is_rejected() {
    assert_eq!(parse_index(""), None);
    assert_eq!(parse_index("abc"), None);
    assert_eq!(parse_index("-1"), None);
    assert_eq!(parse_index(" 1"), None);
    assert_eq!(parse_index("1 "), None);
    assert_eq!(parse_index("1.5"), None);
    assert_eq!(parse_index("12a"), None);
    assert_eq!(parse_index("\u{ff11}"), None);
}

#[test]
fn parse_agrees_with_the_standard_library() {
    for text in ["0", "1", "+5", "-5", "", "+", "abc", "18446744073709551615",
        "18446744073709551616", "0x10", "1e3", "000", "12345678901234567890"]
    {
        assert_eq!(parse_index(text), text.parse::<u64>().ok());
    }
}

#[test]
fn missing_argument() {
    assert_eq!(select_index(&args(&[])), Err(DriverError::ArgumentMissing));
    assert_eq!(select_index(&args(&["prog"])), Err(DriverError::ArgumentMissing));
}

#[test]
fn non_numeric_argument() {
    assert_eq!(select_index(&args(&["prog", "abc"])), Err(DriverError::ArgumentParse));
    assert_eq!(select_index(&args(&["prog", ""])), Err(DriverError::ArgumentParse));
}

#[test]
fn numeric_argument() {
    assert_eq!(select_index(&args(&["prog", "10"])), Ok(10));
    assert_eq!(select_index(&args(&["abc", "20"])), Ok(20));
}

#[test]
fn arguments_after_the_first_are_ignored() {
    assert_eq!(select_index(&args(&["prog", "10", "abc"])), Ok(10));
    assert_eq!(select_index(&args(&["prog", "abc", "10"])), Err(DriverError::ArgumentParse));
}

#[test]
fn every_error_has_its_own_diagnostic() {
    let missing = DriverError::ArgumentMissing.diagnostic();
    let parse = DriverError::ArgumentParse.diagnostic();
    let compile = DriverError::CompilationFailure.diagnostic();
    assert!(!missing.is_empty() && !parse.is_empty() && !compile.is_empty());
    assert_ne!(missing, parse);
    assert_ne!(parse, compile);
    assert_ne!(missing, compile);
    assert!(compile.contains("main"));
}

#[test]
fn standard_level_is_aggressive() {
    assert_eq!(OptLevel::standard(), OptLevel::Aggressive);
}
