//! What is read off the tools of a macOS host.

pub mod bluetooth;
pub mod connection;
pub mod host;
