//! The transfer objects that cross between use cases and presentation.

pub mod todo;
