//! Startup orchestration for a backgrounded tunnel worker: the runtime
//! configuration, the one-byte handshake between worker and supervisor, and
//! the order in which the fallible startup steps are taken.

pub mod config;
pub mod decimal;
pub mod handshake;
pub mod laws;
pub mod sequence;
pub mod startup;
