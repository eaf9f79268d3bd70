//! Typestate machines from declarations.
//!
//! A state description (a closed set of unit or single-payload variants), a
//! machine description (the context every state carries), transition blocks
//! and validators blocks are each parsed into metadata, registered under a
//! scope key so that they can find each other whatever order they arrive
//! in, checked against each other, and turned into a plan of the code to
//! generate: one marker type per variant, a container generic over the
//! current state, a builder per variant, one transition impl per target,
//! and a classifier that tries each variant's predicate in declared order.
//!
//! - `decl`: declarations as the syntax parser hands them over.
//! - `model`, `registry`: the metadata and the store keyed by scope.
//! - `state`, `machine`, `transition`, `validators`, `attr`: parsing,
//!   checks and plans for each kind of declaration; `diag` says why one
//!   was refused.
//! - `naming`, `scope_path`: derived names, and scope keys from source
//!   locations.
//! - `runtime`, `classify`: what generated code does when it runs.

pub mod text;
pub mod model;
pub mod registry;
pub mod naming;
pub mod decl;
pub mod diag;
pub mod state;
pub mod machine;
pub mod transition;
pub mod validators;
pub mod runtime;
pub mod classify;
pub mod scope_path;
pub mod attr;
