//! The interactors.

pub mod todo;
