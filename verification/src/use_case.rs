//! The use cases: transfer objects, errors, the three capability traits and
//! the interactors that implement them over a repository.

pub mod dto;
pub mod error;
pub mod interactor;
pub mod traits;
