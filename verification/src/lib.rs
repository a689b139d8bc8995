//! Generator for Rainmeter skin configuration files.
//!
//! The library reads a generator-definition text (an `.arise` source) and
//! evolves it into an `.ini`-style skin text.  Its heart is a marker-scan
//! pipeline: a line-oriented scanner counts occurrences of twenty fixed
//! literal substrings, and four ordered section builders thread an
//! accumulator from the scan to the finished output text.  File reading and
//! writing, argument handling and logging live outside this crate.

pub mod bucket;
pub mod builders;
pub mod config;
pub mod markers;
pub mod paths;
pub mod scan;
