//! What surrounds a session: the command line.

pub mod cli;
