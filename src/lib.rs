//! The TLS server filter of an asynchronous I/O stack: buffer processing
//! between the wire and the application, the decisions of the handshake
//! driver and the capability queries, and the server's signal listeners.
pub mod handshake;
pub mod query;
pub mod session;
pub mod signals;
