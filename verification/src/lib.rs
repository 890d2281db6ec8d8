//! Turns the issues that a grammar service reports on a text into
//! compiler-style diagnostics over that text.

pub mod diagnostic;
pub mod issue;
pub mod normalize;
pub mod request;
