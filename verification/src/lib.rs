//! Verified core of the Bencher services: API endpoint names, the report
//! endpoints' decision logic, the CLI's request bodies and the task parser's
//! vocabulary.

pub mod adapter;
pub mod cli;
pub mod endpoint;
pub mod parser;
pub mod report;
