//! The server state and the execution of commands against it.

pub mod server;
