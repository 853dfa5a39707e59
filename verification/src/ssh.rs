//! The client side of an SSH session.

pub mod client;
