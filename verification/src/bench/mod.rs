//! Benchmark harness support: scenarios, datasets and the oracle that
//! compares engine answers with what the command-line tool prints.

pub mod datasets;
pub mod oracle;
pub mod regression;
pub mod scenarios;
