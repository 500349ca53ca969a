//! Pig latin for the whole Latin script.
//!
//! The transformation rewrites each Latin-script word of a text, leaving
//! whitespace, punctuation and non-Latin material untouched: the leading
//! consonants of a word are moved to its end and a configurable suffix is
//! appended, while the word's casing pattern is preserved.

pub mod case;
pub mod char_type;
pub mod latin;

mod pig_latin;
mod unicode;

pub use crate::pig_latin::PigLatinTransformer;
