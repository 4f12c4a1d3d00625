//! The ephemeral network and the transfer that runs over it.

pub mod connection;
pub mod transfer;
