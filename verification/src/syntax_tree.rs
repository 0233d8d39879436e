//! The expression tree that the parser builds.
pub mod error;
pub mod expr;
