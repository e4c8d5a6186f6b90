//! Severity-tagged instrumentation rewriting.
//!
//! Given the text of a Rust function definition and an optional list of
//! extra configuration parameters, the library emits the same function
//! preceded by one `::tracing::instrument` annotation whose first field is
//! a fixed severity tag (trace, debug, info, warn or error). The trace
//! variant additionally carries the omit-arguments marker `skip_all`, so
//! that none of the function's parameters are recorded. The function text
//! itself is re-emitted unchanged.

pub mod emit;
pub mod instrument;
pub mod level;
