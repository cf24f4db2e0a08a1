//! Helpers around the compiler.

pub mod error_report;
