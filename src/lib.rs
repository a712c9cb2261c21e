//! Applies a table of deferred, identity-keyed edits to a module's syntax
//! tree in one depth-first pass.
pub mod ast;
pub mod mutations;
pub mod model;
pub mod apply;
pub mod laws;

pub use apply::apply_mutations;
