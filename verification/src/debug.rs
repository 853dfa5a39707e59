//! Debug sessions: a job of a pipeline, run step by step in a remote sandbox.

pub mod channel;
pub mod checksum;
pub mod debug_client;
pub mod debug_client_laws;
pub mod debug_client_tunnel;
pub mod debug_resolver;
pub mod debug_session;
pub mod debugger;
pub mod debugger_laws;
