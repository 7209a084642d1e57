//! Request logic of a small HTTP/3 greeting server: query parsing, routing,
//! response framing, and the per-connection and per-endpoint decisions.
pub mod dispatch;
pub mod query;
pub mod routes;
pub mod server;
pub mod session;
