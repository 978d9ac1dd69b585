//! Small helpers for command-line tools, with their behaviour stated as
//! contracts: a leveled logger with scoped settings, lexical path
//! normalization, chunked readers, shell quoting and a few conversions.

pub mod bath;
pub mod bo;
pub mod bog;
pub mod broc;
pub mod bs;
pub mod misc;
pub mod text;
