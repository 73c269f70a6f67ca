//! A compile-time instrumentation transformer.
//!
//! The library rewrites a function definition so that its body runs inside a
//! tracing span recording the function's identity, source location, and the
//! debug-formatted value of every named argument.  The input is the structural
//! representation of one parsed function; the output is either the rewritten
//! definition or a diagnostic for the first parameter whose binding is not a
//! single identifier.

pub mod ast;
pub mod transform;
