//! Finding literals that leak: those that a function hands to its callers.
pub mod evaluate;
pub mod laws;
pub mod leaks;
pub mod owners;
pub mod source;
pub mod syntax;
