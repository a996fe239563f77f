//! Rustybench: seeded task generation, rustc-error classification and answer
//! extraction for a Rust capability benchmark.

pub mod rng;
pub mod scan;
pub mod text;
pub mod digest;
pub mod vocab;
pub mod gen;
pub mod oracle;
pub mod grading;
pub mod diagnostics;
pub mod records;
pub mod tally;
