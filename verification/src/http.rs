//! The HTTP/1.x vocabulary and the components built from it.

pub mod assembler;
pub mod connection;
pub mod protocol;
pub mod request;
pub mod response;
pub mod traits;
