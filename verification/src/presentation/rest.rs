//! The REST interface: its objects and its handlers.

pub mod handler;
pub mod object;
