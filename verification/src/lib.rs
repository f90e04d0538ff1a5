//! Core of a compile-time pass that turns an annotated function into a task
//! function: a schedulable, memoizable unit of work for a task-graph engine.
//!
//! The pass validates the declaration's receiver and parameters, normalizes
//! parameter and return types to the forms the engine understands, and builds
//! the two call paths (an inline executable body and an exposed dispatch
//! wrapper) together with the descriptors used to register the function in a
//! runtime dispatch registry.
//!
//! Everything here works on the crate's own model of the surface syntax; a
//! thin unverified frontend converts real syntax trees to and from that model.

pub mod ast;
pub mod context;
pub mod diag;
pub mod expand;
pub mod gen;
pub mod laws;
pub mod native_fn;
pub mod options;
pub mod sig;
pub mod turbo_fn;

pub use context::DefinitionContext;
