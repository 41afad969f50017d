//! Protocol layer of a small HTTP/1.x file server: header assembly, request
//! parsing, the status catalogue, response serialisation and the
//! per-connection state machine, together with the server configuration.

pub mod config;
pub mod http;
pub mod text;
