//! Verified core of the bzip2 benchmark harness: the dataset catalogue, bzip2 stream
//! framing and the meaning of the library's return codes, sizes and totals of benchmark
//! runs, command-line options, `/proc/cpuinfo` reading, decimal text and the layout of the
//! Markdown A/B report.

pub mod args;
pub mod dataset;
pub mod engine;
pub mod env;
pub mod plan;
pub mod report;
pub mod text;
