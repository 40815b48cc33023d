//! The two recognizers: identifiers and basic-type keywords.
//!
//! Each call is a pure transition over the caller-supplied buffer: it
//! consumes the maximal leading run of word characters and returns the token
//! together with the unconsumed remainder, or a recoverable failure.  If the
//! run reaches the end of the buffer, no terminator has been observed and a
//! streaming caller is asked for more input instead of being handed a
//! possibly truncated token.

use vstd::prelude::*;
use vstd::slice::slice_subrange;

use crate::ascii::{
    ascii_to_string, chars_of_bytes, is_digit_byte, is_word_byte, is_word_char,
    lemma_word_byte_char, lemma_word_byte_is_ascii, lemma_word_run_len, scan_word_run,
    word_run_len,
};
use crate::syntax::{BasicTy, Identifier, ParseError};
use crate::table::basic_ty_of;

verus! {

/// What recognizing an identifier returns, as a function of the buffer: the
/// maximal leading run of word bytes, decoded, and the remainder, or the
/// failure condition for this buffer.
pub open spec fn spec_identifier(s: Seq<u8>) -> Result<(Seq<char>, Seq<u8>), ParseError> {
    let n: int = word_run_len(s) as int;
    if n == s.len() {
        Err(ParseError::IncompleteInput)
    } else if n == 0 {
        Err(ParseError::NoMatch)
    } else if is_digit_byte(s[0]) {
        Err(ParseError::InvalidIdentifier)
    } else {
        Ok((chars_of_bytes(s.take(n)), s.skip(n)))
    }
}

/// What recognizing a basic type returns, as a function of the buffer: the
/// canonical variant of the maximal leading run of word bytes, and the
/// remainder, or the failure condition for this buffer.
pub open spec fn spec_basic_type(s: Seq<u8>) -> Result<(BasicTy, Seq<u8>), ParseError> {
    let n: int = word_run_len(s) as int;
    if n == s.len() {
        Err(ParseError::IncompleteInput)
    } else if n == 0 {
        Err(ParseError::NoMatch)
    } else {
        match basic_ty_of(chars_of_bytes(s.take(n))) {
            Some(t) => Ok((t, s.skip(n))),
            None => Err(ParseError::UnknownTypeKeyword),
        }
    }
}

/// The identifier character class on a single byte: ASCII letters, decimal
/// digits and the underscore.
pub fn identifier_pred(c: u8) -> (r: bool)
    ensures
        r == is_word_byte(c),
{
    (65 <= c && c <= 90) || (97 <= c && c <= 122) || (48 <= c && c <= 57) || c == 95
}

/// A non-empty candidate run is a legal identifier exactly when it does not
/// begin with a decimal digit.
pub fn verify_identifier(s: &[u8]) -> (r: bool)
    requires
        s@.len() > 0,
    ensures
        r == !is_digit_byte(s@[0]),
{
    let b: u8 = s[0];
    !(48 <= b && b <= 57)
}

/// Recognize an identifier at the head of the buffer.
pub fn identifier<'a>(input: &'a [u8]) -> (r: Result<(Identifier, &'a [u8]), ParseError>)
    ensures
        (match r {
            Ok(p) => {
                &&& spec_identifier(input@) matches Ok(q)
                &&& p.0@ == q.0
                &&& p.1@ == q.1
                &&& p.0.wf()
            },
            Err(e) => spec_identifier(input@) == Err::<(Seq<char>, Seq<u8>), ParseError>(e),
        }),
{
    let n: usize = scan_word_run(input);
    proof {
        lemma_word_run_len(input@);
    }
    if n == input.len() {
        return Err(ParseError::IncompleteInput);
    }
    if n == 0 {
        return Err(ParseError::NoMatch);
    }
    let b0: u8 = input[0];
    if 48 <= b0 && b0 <= 57 {
        return Err(ParseError::InvalidIdentifier);
    }
    let run = slice_subrange(input, 0, n);
    proof {
        assert forall|i: int| 0 <= i < run@.len() implies run@[i] < 128 by {
            lemma_word_byte_is_ascii(run@[i]);
        }
    }
    let text = ascii_to_string(run);
    proof {
        assert forall|i: int| 0 <= i < text@.len() implies is_word_char(
            #[trigger] text@[i],
        ) by {
            lemma_word_byte_char(run@[i]);
        }
        lemma_word_byte_char(input@[0]);
        assert(text@[0] == input@[0] as char);
    }
    let rest = slice_subrange(input, n, input.len());
    Ok((Identifier::from_string(text), rest))
}

/// Recognize a basic-type keyword at the head of the buffer.
pub fn basic_type<'a>(input: &'a [u8]) -> (r: Result<(BasicTy, &'a [u8]), ParseError>)
    ensures
        (match r {
            Ok(p) => {
                &&& spec_basic_type(input@) matches Ok(q)
                &&& p.0 == q.0
                &&& p.1@ == q.1
            },
            Err(e) => spec_basic_type(input@) == Err::<(BasicTy, Seq<u8>), ParseError>(e),
        }),
{
    let n: usize = scan_word_run(input);
    proof {
        lemma_word_run_len(input@);
    }
    if n == input.len() {
        return Err(ParseError::IncompleteInput);
    }
    if n == 0 {
        return Err(ParseError::NoMatch);
    }
    let run = slice_subrange(input, 0, n);
    proof {
        assert forall|i: int| 0 <= i < run@.len() implies run@[i] < 128 by {
            lemma_word_byte_is_ascii(run@[i]);
        }
    }
    let text = ascii_to_string(run);
    match crate::table::lookup_basic_ty(text.as_str()) {
        Some(t) => {
            let rest = slice_subrange(input, n, input.len());
            Ok((t, rest))
        },
        None => Err(ParseError::UnknownTypeKeyword),
    }
}

/// Every buffer whose maximal leading word run is non-empty, terminated
/// before the end of the buffer, and free of a leading digit is accepted,
/// and the token text is exactly that run.
pub proof fn lemma_identifier_accepts_word_run(s: Seq<u8>)
    requires
        0 < word_run_len(s) < s.len(),
        !is_digit_byte(s[0]),
    ensures
        spec_identifier(s) == Ok::<(Seq<char>, Seq<u8>), ParseError>(
            (chars_of_bytes(s.take(word_run_len(s) as int)), s.skip(word_run_len(s) as int)),
        ),
{
}

/// Every terminated run that begins with a decimal digit is rejected as an
/// invalid identifier, whatever the remaining characters are.
pub proof fn lemma_identifier_rejects_leading_digit(s: Seq<u8>)
    requires
        word_run_len(s) < s.len(),
        s.len() > 0,
        is_digit_byte(s[0]),
    ensures
        spec_identifier(s) == Err::<(Seq<char>, Seq<u8>), ParseError>(
            ParseError::InvalidIdentifier,
        ),
{
}

/// A run that reaches the end of the buffer is never decided: both
/// recognizers ask for more input, so a keyword prefix at the buffer's edge
/// is not mistaken for a complete token.
pub proof fn lemma_unterminated_run_is_incomplete(s: Seq<u8>)
    requires
        word_run_len(s) == s.len(),
    ensures
        spec_identifier(s) == Err::<(Seq<char>, Seq<u8>), ParseError>(ParseError::IncompleteInput),
        spec_basic_type(s) == Err::<(BasicTy, Seq<u8>), ParseError>(ParseError::IncompleteInput),
{
}

/// Both recognizers are deterministic: what each returns is fixed by the
/// buffer alone, so two runs over the same buffer agree.
pub proof fn lemma_recognizers_deterministic(
    s: Seq<u8>,
    r1: Result<(BasicTy, Seq<u8>), ParseError>,
    r2: Result<(BasicTy, Seq<u8>), ParseError>,
)
    requires
        r1 == spec_basic_type(s),
        r2 == spec_basic_type(s),
    ensures
        r1 == r2,
{
}

/// A span the basic-type resolver rejects as an unknown keyword succeeds as
/// a plain identifier, provided it does not begin with a digit: the two
/// recognizers share one character class, so the identifier consumes exactly
/// the span the resolver consumed.
pub proof fn lemma_unknown_keyword_falls_back_to_identifier(s: Seq<u8>)
    requires
        spec_basic_type(s) == Err::<(BasicTy, Seq<u8>), ParseError>(ParseError::UnknownTypeKeyword),
        !is_digit_byte(s[0]),
    ensures
        spec_identifier(s) == Ok::<(Seq<char>, Seq<u8>), ParseError>(
            (chars_of_bytes(s.take(word_run_len(s) as int)), s.skip(word_run_len(s) as int)),
        ),
{
}

} // verus!
