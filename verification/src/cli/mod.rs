//! The command line: what the program is asked to do, and what it prints.

pub mod args;
pub mod capabilities;
pub mod json;
pub mod logging;
pub mod report;
