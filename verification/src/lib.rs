//! Verified core of a relay-assisted peer-to-peer chat client.
//!
//! The library models the connectivity core: deterministic peer identity,
//! structured multiaddresses, a relay bootstrap state machine, a hole-punch
//! coordinator, a flood/gossip router with duplicate suppression, and the
//! single event loop that drives them. Network I/O itself stays outside;
//! the loop is fed plain events and hands back plain actions.

pub mod bytes;
pub mod codec;
pub mod config;
pub mod errors;
pub mod gossip;
pub mod holepunch;
pub mod identity;
pub mod multiaddr;
pub mod relay;
pub mod swarm;
pub mod transport;
