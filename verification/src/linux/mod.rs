//! What is read off the tools of a Linux host.

pub mod bluetooth;
pub mod connection;
pub mod host;
