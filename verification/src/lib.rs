//! The logic of the MuzanCI command line tool.

pub mod cli;
pub mod config;
pub mod debug;
pub mod env;
pub mod error;
pub mod git;
pub mod prompt;
pub mod signal_receiver;
pub mod ssh;
pub mod stdin;
pub mod text;
