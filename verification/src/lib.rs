//! A todo list kept in one table, in layers: the domain (the entity, its
//! errors, the repository contract and the model of the table), the use
//! cases, the stores behind the repository, the presentation adapters for
//! REST, GraphQL and gRPC, and what the clients compute.
//!
//! The library decides and does no input or output. The use cases and the
//! adapters are stated and proved against the model of the table; the
//! conversation with a database is a state machine that the caller drives.

pub mod client;
pub mod domain;
pub mod gui_client;
pub mod infrastructure;
pub mod presentation;
pub mod use_case;
