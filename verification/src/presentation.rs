//! The presentation adapters: REST, GraphQL and gRPC over the use cases.

pub mod error;
pub mod graphql;
pub mod grpc;
pub mod rest;
