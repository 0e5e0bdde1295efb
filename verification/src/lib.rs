//! Command execution and storage core of a small key-value server.
//!
//! A [`Server`] bundles four pieces of state: the server configuration, the
//! machine information, the data statistics and the storage engine. Decoded
//! commands are executed against that state and answered with a response;
//! every contract says what the answer is and what the state is afterwards.
//!
//! A server is a plain value. Whoever shares one between threads puts it
//! behind a lock and executes each command while holding it.

pub mod buffers;
pub mod decimal;
pub mod protocol;
pub mod server_state;
pub mod shared;
pub mod warehouse;

pub use crate::shared::server::Server;
