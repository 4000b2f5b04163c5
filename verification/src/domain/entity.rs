//! The entities of the domain.

pub mod todo;
