//! Link checking for documentation: finding link targets in text, deciding how
//! each one is to be resolved, and judging what the outside world answered.

pub mod doc_file;
pub mod error;
pub mod link;
pub mod log;
pub mod order;
pub mod pool;
pub mod report;
pub mod resolve;
pub mod text;
pub mod trusted;
