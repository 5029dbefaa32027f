//! Compile-time synthesis of text-rendering routines for record declarations.
//!
//! Given the structural description of a record type — its name, generic
//! parameters, documentation annotations and fields — the library validates
//! the declaration's kind and emits a rendering routine: an ordered list of
//! emission steps that, once executed, print the record's name, its
//! documentation, and one documented block per named field in a fixed layout.

pub mod decl;
pub mod dispatch;
pub mod errors;
pub mod extract;
pub mod laws;
pub mod render;
pub mod synth;
