//! The repository contract and the model of the table behind it.

pub mod table;
pub mod todo_repository;
