//! The server configuration and the TOML documents it is read from.

pub mod document;
pub mod httpconfig;
