//! The gRPC interface: its messages and the service `TodoService`.

pub mod proto_impl;
