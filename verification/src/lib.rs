//! A2A (Agent-to-Agent) front of the ACP bridge: agent configuration, the
//! Agent Card, JSON-RPC replies and the `message/send` task lifecycle.
pub mod card;
pub mod config;
pub mod decimal;
pub mod protocol;
pub mod send;
pub mod trusted;
