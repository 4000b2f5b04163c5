//! The GraphQL interface: its object and its resolvers.

pub mod object;
pub mod schema;
