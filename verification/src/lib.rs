//! Networking core for a tick-based multiplayer simulation.
//!
//! An authoritative server advances a shared world on a fixed tick while
//! clients predict their own entity ahead of confirmation and interpolate
//! everyone else. This crate holds the verified core: the tick clock, the
//! input model, the deterministic movement integration shared by client and
//! server, the server world rules (idempotent spawn, disconnect teardown),
//! client-side prediction and reconciliation, replication targeting, the
//! connection handshake, the link conditioner, a reliable-ordered channel,
//! and the binary wire codec. Engine plumbing (rendering, sockets, the
//! simulation loop itself) stays outside and talks to this core through
//! plain values.

pub mod channel;
pub mod client;
pub mod codec;
pub mod conditioner;
pub mod config;
pub mod connection;
pub mod identity;
pub mod interpolation;
pub mod movement;
pub mod prediction;
pub mod protocol;
pub mod replication;
pub mod server;
pub mod tick;
pub mod transport;
pub mod world;
