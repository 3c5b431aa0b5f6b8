//! Analysis core of a linter for a scripting language with an optional
//! type-annotation layer.
//!
//! Given an already-parsed program (modelled by [`ast::Program`]), the crate
//! builds control-flow facts ([`cfg`]), accumulates rule findings in a
//! per-run [`context::Context`], runs the built-in rules ([`rules`]) and
//! folds results of externally supplied rule modules back in through the
//! plugin boundary ([`plugin`]).

pub mod span;
pub mod ast;
pub mod diagnostic;
pub mod cfg;
pub mod context;
pub mod rules;
pub mod plugin;
pub mod linter;
