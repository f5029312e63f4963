//! PMP logs: occurrences from `logs` frames and `logs.history` replies, and
//! the best-effort structuring of one raw line into a stable entry shape.

pub mod parse;
pub mod history;
pub mod translator;
pub mod params;
