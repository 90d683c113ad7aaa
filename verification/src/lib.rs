//! Planning layer for a desktop PDF toolbox.
//!
//! The library decides *what* has to be run: it validates requests, derives
//! output names, and builds the exact argument lists handed to the PostScript
//! interpreter and to the PDF security tool. It never spawns a process or
//! touches the file system itself; callers pass in what they observed (whether
//! a file exists, what a tool printed) and carry out the returned plan.

pub mod text;
pub mod process;
pub mod paths;
pub mod locate;
pub mod ghostscript;
pub mod qpdf;
pub mod commands;
