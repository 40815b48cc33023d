use glsl::parser::{identifier, identifier_pred, verify_identifier};
use glsl::syntax::ParseError;

fn accepts(input: &[u8], name: &str, rest: &[u8]) {
    let (id, r) = identifier(input).expect("identifier should be accepted");
    assert_eq!(id.name().as_str(), name);
    assert_eq!(r, rest);
}

#[test]
fn accepts_simple_name() {
    accepts(b"foo bar", "foo", b" bar");
}

#[test]
fn accepts_leading_underscore() {
    accepts(b"_private;", "_private", b";");
}

#[test]
fn accepts_digits_after_first_character() {
    accepts(b"a1_b2c3+", "a1_b2c3", b"+");
}

#[test]
fn consumes_maximal_run() {
    accepts(b"abc_def ghi", "abc_def", b" ghi");
}

#[test]
fn single_letter_name() {
    accepts(b"x=1", "x", b"=1");
}

#[test]
fn rejects_leading_digit() {
    assert_eq!(identifier(b"3foo "), Err(ParseError::InvalidIdentifier));
}

#[test]
fn rejects_pure_number_run() {
    assert_eq!(identifier(b"123;"), Err(ParseError::InvalidIdentifier));
}

#[test]
fn no_match_on_leading_symbol() {
    assert_eq!(identifier(b"+foo"), Err(ParseError::NoMatch));
}

#[test]
fn no_match_on_leading_space() {
    assert_eq!(identifier(b" foo"), Err(ParseError::NoMatch));
}

#[test]
fn unterminated_run_needs_more_input() {
    assert_eq!(identifier(b"abc"), Err(ParseError::IncompleteInput));
}

#[test]
fn empty_buffer_needs_more_input() {
    assert_eq!(identifier(b""), Err(ParseError::IncompleteInput));
}

#[test]
fn unterminated_digit_run_needs_more_input() {
    // The leading digit is only reported once the run is terminated.
    assert_eq!(identifier(b"123"), Err(ParseError::IncompleteInput));
}

#[test]
fn identifier_pred_matches_word_characters() {
    assert!(identifier_pred(b'a'));
    assert!(identifier_pred(b'z'));
    assert!(identifier_pred(b'A'));
    assert!(identifier_pred(b'Z'));
    assert!(identifier_pred(b'0'));
    assert!(identifier_pred(b'9'));
    assert!(identifier_pred(b'_'));
    assert!(!identifier_pred(b' '));
    assert!(!identifier_pred(b'+'));
    assert!(!identifier_pred(b'-'));
    assert!(!identifier_pred(0xC3));
}

#[test]
fn verify_identifier_checks_leading_digit() {
    assert!(verify_identifier(b"foo"));
    assert!(verify_identifier(b"_1"));
    assert!(!verify_identifier(b"1foo"));
    assert!(!verify_identifier(b"9"));
}
