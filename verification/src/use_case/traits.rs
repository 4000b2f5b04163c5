//! The capability traits of the use cases.

pub mod todo;
