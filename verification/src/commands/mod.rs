//! The operations offered to the user interface, each as the decisions
//! taken before a tool runs and the record made after it has run.

pub mod utils;
pub mod compress;
pub mod merge;
pub mod split;
pub mod protect;
