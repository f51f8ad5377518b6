//! A verified source-tree rewrite: closures that declare a tuple-of-identifiers
//! capture pattern as their first parameter are replaced by a block that first
//! clones each captured name into a fresh `mut` binding and then defines the
//! closure with that parameter removed.
//!
//! The tree the rewrite walks is the library's own model of a function body:
//! statements, expressions and patterns as plain tagged variants (`ast`).  The
//! rewrite itself is stated as a mathematical function over the tree's view
//! (`rewrite`), implemented by verified executable functions (`engine`), and
//! its general properties are proved in `laws`.

pub mod ast;
pub mod rewrite;
pub mod engine;
pub mod laws;

pub use crate::engine::clone_into_closure;
