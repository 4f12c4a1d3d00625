//! Verified protocol core of `fling`, a peer-to-peer file transfer tool.
//!
//! Two hosts find each other over Bluetooth, hand over a secret, derive the
//! credentials of a short-lived wireless network from it, and stream a file
//! over that network. This crate holds the decisions of that protocol: what
//! is derived from what, which step follows which outcome, and when a wait
//! gives up. Talking to adapters, sockets and the operating system is left
//! to the program that drives it.

pub mod bluetooth;
pub mod crypto;
pub mod error;
pub mod fsm;
pub mod linux;
pub mod macos;
pub mod text;
pub mod tunnel;
pub mod utils;
