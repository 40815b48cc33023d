use glsl::parser::{basic_type, identifier};
use glsl::syntax::{BasicTy, ParseError};

fn resolve(input: &[u8]) -> BasicTy {
    basic_type(input).expect("spelling should resolve").0
}

#[test]
fn square_matrix_aliases_share_a_variant() {
    assert_eq!(resolve(b"mat2 "), resolve(b"mat2x2 "));
    assert_eq!(resolve(b"mat3 "), resolve(b"mat3x3 "));
    assert_eq!(resolve(b"mat4 "), resolve(b"mat4x4 "));
    assert_eq!(resolve(b"dmat2 "), resolve(b"dmat2x2 "));
    assert_eq!(resolve(b"dmat3 "), resolve(b"dmat3x3 "));
    assert_eq!(resolve(b"dmat4 "), resolve(b"dmat4x4 "));
}

#[test]
fn rectangular_matrices_are_not_aliased() {
    assert_ne!(resolve(b"mat2x3 "), resolve(b"mat3x2 "));
    assert_ne!(resolve(b"mat2 "), resolve(b"mat3 "));
    assert_ne!(resolve(b"dmat2 "), resolve(b"mat2 "));
}

#[test]
fn unknown_keyword_is_rejected() {
    assert_eq!(basic_type(b"vector3 "), Err(ParseError::UnknownTypeKeyword));
}

#[test]
fn unknown_keyword_span_succeeds_as_identifier() {
    assert_eq!(basic_type(b"vector3 "), Err(ParseError::UnknownTypeKeyword));
    let (id, rest) = identifier(b"vector3 ").expect("fallback should succeed");
    assert_eq!(id.name().as_str(), "vector3");
    assert_eq!(rest, b" ");
}

#[test]
fn case_is_significant() {
    assert_eq!(basic_type(b"Float "), Err(ParseError::UnknownTypeKeyword));
    assert_eq!(basic_type(b"VEC2 "), Err(ParseError::UnknownTypeKeyword));
}

#[test]
fn regular_spellings_of_the_irregular_entries_are_unknown() {
    // Only the recognized surface forms are in the table.
    assert_eq!(basic_type(b"isampler2DMS "), Err(ParseError::UnknownTypeKeyword));
    assert_eq!(basic_type(b"usampler1DArray "), Err(ParseError::UnknownTypeKeyword));
}

#[test]
fn resolution_is_deterministic() {
    let buf: &[u8] = b"sampler2DArrayShadow ;";
    let first = basic_type(buf);
    let second = basic_type(buf);
    assert_eq!(first, second);
    let (ty, rest) = first.expect("spelling should resolve");
    assert_eq!(ty, BasicTy::Sampler2DArrayShadow);
    assert_eq!(rest, b" ;");
}

#[test]
fn keyword_prefix_at_end_of_buffer_is_incomplete() {
    assert_eq!(basic_type(b"floa"), Err(ParseError::IncompleteInput));
}

#[test]
fn full_keyword_at_end_of_buffer_is_still_incomplete() {
    // Without a terminator the run might continue, so no keyword is decided.
    assert_eq!(basic_type(b"float"), Err(ParseError::IncompleteInput));
}

#[test]
fn resolver_reports_no_match_on_symbol() {
    assert_eq!(basic_type(b"+vec2 "), Err(ParseError::NoMatch));
}

#[test]
fn resolver_takes_maximal_run() {
    // The run is longer than any table entry, so it is not a keyword.
    assert_eq!(basic_type(b"floatx "), Err(ParseError::UnknownTypeKeyword));
    assert_eq!(basic_type(b"vec25 "), Err(ParseError::UnknownTypeKeyword));
}

#[test]
fn digit_leading_run_is_no_keyword() {
    assert_eq!(basic_type(b"2vec "), Err(ParseError::UnknownTypeKeyword));
}

#[test]
fn underscore_is_part_of_the_run() {
    let (ty, rest) = basic_type(b"atomic_uint)").expect("spelling should resolve");
    assert_eq!(ty, BasicTy::AtomicUInt);
    assert_eq!(rest, b")");
}
