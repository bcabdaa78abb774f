//! Core of a build-time code generator for blockchain chain extensions.
//!
//! An interface declaration (a trait-like set of method declarations) is
//! turned into dispatch glue: stable numeric identifiers are derived for the
//! interface and each of its methods, method signatures are captured as
//! canonical input/output types, and two build-configuration-gated copies of
//! the interface are emitted — one untouched for the host/dispatch side, one
//! whose method bodies are replaced by remote-call-building expressions.
//!
//! A separate lookup generator resolves a one- or two-segment dotted path to
//! the identifier of a previously processed interface or method; it re-derives
//! the same name hash the emitter used, which is the consistency invariant
//! the whole scheme depends on.

pub mod definition;
pub mod hash;
pub mod identifier;
pub mod lookup;
pub mod model;
pub mod text;
