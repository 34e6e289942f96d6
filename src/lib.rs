//! A small static-file HTTP server library: request parsing, path
//! resolution, response assembly with optional gzip encoding, and the
//! per-connection keep-alive and idle-timeout decisions.

pub mod error;
pub mod request;
pub mod path;
pub mod clock;
pub mod encoding;
pub mod response;
pub mod connection;
pub mod config;
