//! Control-plane core of a worker-agent orchestrator: the wire codec for the
//! messages exchanged with agents, the header handshake that authenticates an
//! agent, the registry of live sessions, and the per-connection pump.

pub mod codec;
pub mod text;
pub mod auth;
pub mod store;
pub mod registry;
pub mod session;
pub mod api;
pub mod service;
