//! Character classes and byte-level scanning shared by both recognizers.
//!
//! Identifier and basic-type spellings are drawn from the same character
//! class: ASCII letters, decimal digits and the underscore.  Restricting the
//! recognizers to this ASCII subset keeps the later conversion of a matched
//! byte run into owned text safe by construction.

use vstd::prelude::*;
use vstd::string::StringSliceAdditionalSpecFns;

verus! {

/// The identifier/type-keyword character class over bytes:
/// ASCII letters, decimal digits and `_`.
pub open spec fn is_word_byte(b: u8) -> bool {
    (65 <= b && b <= 90)  // 'A'..='Z'
    || (97 <= b && b <= 122)  // 'a'..='z'
    || (48 <= b && b <= 57)  // '0'..='9'
    || b == 95  // '_'
}

/// ASCII decimal digits over bytes.
pub open spec fn is_digit_byte(b: u8) -> bool {
    48 <= b && b <= 57
}

/// The same character class over characters.
pub open spec fn is_word_char(c: char) -> bool {
    ('A' <= c && c <= 'Z') || ('a' <= c && c <= 'z') || ('0' <= c && c <= '9') || c == '_'
}

/// ASCII decimal digits over characters.
pub open spec fn is_digit_char(c: char) -> bool {
    '0' <= c && c <= '9'
}

/// The text denoted by a run of ASCII bytes: each byte read as the character
/// with the same code point.
pub open spec fn chars_of_bytes(s: Seq<u8>) -> Seq<char> {
    s.map(|_i: int, b: u8| b as char)
}

/// A word byte lies in the ASCII range.
pub proof fn lemma_word_byte_is_ascii(b: u8)
    requires
        is_word_byte(b),
    ensures
        b < 128,
{
}

/// The byte-level and character-level classes agree across the code-point
/// preserving cast from bytes to characters.
pub proof fn lemma_word_byte_char(b: u8)
    ensures
        is_word_byte(b) == is_word_char(b as char),
        is_digit_byte(b) == is_digit_char(b as char),
{
}

/// Length of the longest leading run of word bytes.
pub open spec fn word_run_len(s: Seq<u8>) -> nat
    decreases s.len(),
{
    if s.len() == 0 || !is_word_byte(s[0]) {
        0
    } else {
        1 + word_run_len(s.drop_first())
    }
}

/// The defining properties of `word_run_len`: it is a prefix of word bytes
/// that is either maximal or runs to the end of the buffer.
pub proof fn lemma_word_run_len(s: Seq<u8>)
    ensures
        word_run_len(s) <= s.len(),
        forall|j: int| 0 <= j < word_run_len(s) ==> is_word_byte(#[trigger] s[j]),
        word_run_len(s) < s.len() ==> !is_word_byte(s[word_run_len(s) as int]),
    decreases s.len(),
{
    if s.len() == 0 || !is_word_byte(s[0]) {
    } else {
        lemma_word_run_len(s.drop_first());
        assert forall|j: int| 0 <= j < word_run_len(s) implies is_word_byte(#[trigger] s[j]) by {
            if j > 0 {
                assert(s.drop_first()[j - 1] == s[j]);
            }
        }
        if word_run_len(s) < s.len() {
            assert(s.drop_first()[word_run_len(s) - 1] == s[word_run_len(s) as int]);
        }
    }
}

/// Any index with the defining properties equals `word_run_len`.
pub proof fn lemma_word_run_len_unique(s: Seq<u8>, n: int)
    requires
        0 <= n <= s.len(),
        forall|j: int| 0 <= j < n ==> is_word_byte(#[trigger] s[j]),
        n < s.len() ==> !is_word_byte(s[n]),
    ensures
        n == word_run_len(s),
    decreases s.len(),
{
    if s.len() == 0 || !is_word_byte(s[0]) {
    } else {
        assert forall|j: int| 0 <= j < n - 1 implies is_word_byte(#[trigger] s.drop_first()[j]) by {
            assert(s.drop_first()[j] == s[j + 1]);
        }
        if n - 1 < s.drop_first().len() {
            assert(s.drop_first()[n - 1] == s[n]);
        }
        lemma_word_run_len_unique(s.drop_first(), n - 1);
    }
}

/// Scan the longest leading run of word bytes and return its length.
pub fn scan_word_run(input: &[u8]) -> (n: usize)
    ensures
        n == word_run_len(input@),
{
    let len: usize = input.len();
    let mut i: usize = 0;
    while i < len && is_word_byte_at(input, i)
        invariant
            0 <= i <= len,
            len == input@.len(),
            forall|j: int| 0 <= j < i ==> is_word_byte(#[trigger] input@[j]),
        decreases len - i,
    {
        i = i + 1;
    }
    proof {
        lemma_word_run_len_unique(input@, i as int);
    }
    i
}

/// Test a single byte of the buffer against the word class.
fn is_word_byte_at(input: &[u8], i: usize) -> (r: bool)
    requires
        i < input@.len(),
    ensures
        r == is_word_byte(input@[i as int]),
{
    let b: u8 = input[i];
    (65 <= b && b <= 90) || (97 <= b && b <= 122) || (48 <= b && b <= 57) || b == 95
}

/// Byte-for-byte equality of two slices.
pub fn bytes_eq(a: &[u8], b: &[u8]) -> (r: bool)
    ensures
        r == (a@ == b@),
{
    if a.len() != b.len() {
        proof {
            assert(a@ != b@);
        }
        return false;
    }
    let len: usize = a.len();
    let mut i: usize = 0;
    while i < len
        invariant
            0 <= i <= len,
            len == a@.len() && len == b@.len(),
            forall|j: int| 0 <= j < i ==> a@[j] == b@[j],
        decreases len - i,
    {
        if a[i] != b[i] {
            proof {
                assert(a@[i as int] != b@[i as int]);
            }
            return false;
        }
        i = i + 1;
    }
    proof {
        assert(a@ =~= b@);
    }
    true
}

/// Equality of two string slices, decided on their UTF-8 bytes.
pub fn str_eq(a: &str, b: &str) -> (r: bool)
    ensures
        r == (a@ == b@),
{
    let r = bytes_eq(a.as_bytes(), b.as_bytes());
    proof {
        if a.spec_bytes() == b.spec_bytes() {
            vstd::utf8::encode_utf8_decode_utf8(a@);
            vstd::utf8::encode_utf8_decode_utf8(b@);
        }
    }
    r
}

/// Relies on `core::str::from_utf8`: a buffer of bytes below `0x80` is valid
/// UTF-8 and decodes to the characters with the same code points, one per
/// byte; the matched `&str` is then turned into owned text unchanged.
#[verifier::external_body]
pub fn ascii_to_string(bytes: &[u8]) -> (s: String)
    requires
        forall|i: int| 0 <= i < bytes@.len() ==> bytes@[i] < 128,
    ensures
        s@ == chars_of_bytes(bytes@),
{
    match core::str::from_utf8(bytes) {
        Ok(text) => text.to_string(),
        Err(_) => String::new(),
    }
}

} // verus!
