//! Calm output for terminal programs: a function rewrite that turns a
//! broken pipe (the reader went away) into a quiet success while every other
//! I/O failure is still reported, and the filter that the rewritten code runs.

pub mod attribute;
pub mod outcome;
pub mod syntax;
pub mod transform;

pub use attribute::pipefail;
pub use outcome::suppress_broken_pipe;
