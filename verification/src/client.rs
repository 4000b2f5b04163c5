//! The command-line clients.

pub mod rest;
