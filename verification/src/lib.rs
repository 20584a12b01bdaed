//! Predicates over the current values of named variables.
//!
//! A predicate assigns a truth value to a valuation, that is a map from
//! variable names to values. Checking a predicate answers `Ok(())` when it
//! holds and an error when it does not, or when a variable it reads has no
//! value.
pub mod formula;
pub mod grammar;
pub mod laws;
pub mod names;
pub mod predicate;
