//! The entity, the errors of the domain and the repository contract.

pub mod entity;
pub mod error;
pub mod repository;
