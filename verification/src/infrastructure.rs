//! The stores behind the repository contract.

pub mod memory;
pub mod session;
pub mod todo_repository;
