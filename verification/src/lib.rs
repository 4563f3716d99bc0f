//! Bindings to the embedded R runtime: the part of the binding logic that
//! does not touch the runtime itself, verified.
//!
//! * [internal] - the C-level vocabulary of the runtime: value types and
//!   parse outcomes, with their numeric codes.
//! * [interpreter] - the interpreter handle and the decisions taken on what
//!   the runtime reports back.
//! * [sexp] - S-expression handles and iteration over vector elements.
pub mod internal;
pub mod interpreter;
pub mod sexp;
