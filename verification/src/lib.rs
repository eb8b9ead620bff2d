//! Construction of synthetic compile-time error directives.
//!
//! Given a diagnostic message and a range of source locations, the library
//! builds the fixed three-token statement that a host compiler recognises as
//! "fail compilation now with this message", with each token tagged so that
//! downstream tooling underlines the intended span.

pub mod emit;
pub mod message;
pub mod span;
pub mod tokens;

pub use emit::error_ts;
pub use span::SpanRange;
