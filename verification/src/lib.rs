//! A lexical scanner for a small C-like language.
//!
//! The scanner turns a complete source text into an ordered sequence of
//! classified tokens, terminated by a single end-of-input token, and a
//! collection of lexical errors. Unrecognized characters never abort the
//! scan: each one becomes an error record and the scan continues with the
//! next character.
//!
//! The `model` module gives the mathematical meaning of a scan as a pure
//! function of the source text; the `tokenizer` module holds the executable
//! scanner, whose contracts tie it to that meaning; the `laws` module proves
//! the general properties of the scan.

pub mod laws;
pub mod model;
pub mod tokenizer;
