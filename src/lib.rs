//! A small regular-expression benchmark: a fixed table of named patterns,
//! match counting over a text corpus, and the exact lines of its report.
pub mod matching;
pub mod patterns;
pub mod render;

pub use matching::{count_matches, Matcher, MeasureError};
pub use patterns::{benchmark_patterns, Pattern, PATTERN_COUNT};
pub use render::{header_line, result_row, rounded_quotient, separator_line};
