//! A remote command-execution agent: session lifecycle, keepalive protocol,
//! wire envelopes and command results, with their contracts.

pub mod config;
pub mod envelope;
pub mod executor;
pub mod liveness;
pub mod queue;
pub mod router;
pub mod session;
pub mod text;
pub mod token;
