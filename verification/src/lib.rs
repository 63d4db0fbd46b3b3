//! A small library for a per-core CPU usage monitor: immutable usage
//! snapshots, a shared store that never yields a torn read, a renderer
//! that formats snapshots as text, and the step logic of the publisher
//! and of a live delivery channel.

pub mod channel;
pub mod publish;
pub mod render;
pub mod snapshot;
pub mod store;
