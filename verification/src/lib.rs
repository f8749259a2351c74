//! Diagnosis of one outbound TCP connection attempt.
//!
//! The crate holds the part of a connection debugger that decides and words
//! things: it sorts the raw error of a failed attempt into a small set of
//! classes and composes the text shown to the user for each of them. Opening
//! the socket and printing are left to the caller.

pub mod attempt;
pub mod class;
pub mod raw;
pub mod report;
pub mod text;
