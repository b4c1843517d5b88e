//! Human-readable renderings of integers: ordinals ("101st"), English words
//! ("one hundred and one"), comma-grouped digits ("1,234") and repetition
//! phrases ("twice", "three times").
//!
//! Every function is verified against a mathematical description of its
//! result, stated over `int`, `Seq<usize>` (decimal digits) and `Seq<char>`
//! (text).

pub mod decimal;
pub mod grouping;
pub mod hyphenation;
pub mod laws;
pub mod magnitude;
pub mod numbers;
pub mod signed;
pub mod spelling;
pub mod unsigned;
pub mod words;
