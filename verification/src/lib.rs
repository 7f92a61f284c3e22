//! A minimal event-driven HTTP/1.0 static file server, as a verified library.
//!
//! The library holds everything the server decides: how raw request bytes are
//! interpreted (`request`), what the exact response bytes are for each outcome
//! (`response`), and how each connection moves through its lifecycle under
//! readiness events (`reactor`). The surrounding binary owns the sockets and
//! the readiness wait, performs the reads, writes and file accesses, and hands
//! the library plain bytes.

pub mod reactor;
pub mod request;
pub mod response;
