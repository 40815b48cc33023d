//! Lexical recognition for a shading-language front end.
//!
//! The crate turns a leading run of source bytes into either a validated
//! identifier token or one of a closed set of built-in basic-type tokens.
//! Both recognizers are pure functions over an immutable byte buffer: each
//! call consumes a maximal run of token characters and hands back the token
//! together with the unconsumed remainder, or a structured failure that the
//! surrounding grammar can recover from.

pub mod ascii;
pub mod parser;
pub mod syntax;
pub mod table;
