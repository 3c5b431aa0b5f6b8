//! The built-in rules: each one walks the program model and reports its
//! findings through the shared diagnostic context.

pub mod no_non_null_assertion;
pub mod no_sparse_arrays;
pub mod prefer_as_const;
pub mod use_isnan;
