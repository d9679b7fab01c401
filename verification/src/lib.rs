//! Verified identity core for per-connection network diagnostics.
//!
//! A game server publishes four network statistics (round-trip time, sent
//! throughput, received throughput and packet loss) for each connected
//! client into a metrics sink that keys every series by a 128-bit
//! identifier. This crate provides the verified logic behind that
//! adapter: deriving a collision-free identifier and display name for
//! each (metric kind, client id) pair, remembering which clients already
//! have their series registered so registration happens exactly once per
//! client, and planning, for every tick, which registrations to issue and
//! which series to push samples to. The host-engine plumbing (resources,
//! scheduling, the floating-point sample values themselves) stays outside
//! this crate; callers execute the returned plans against the real sink.

pub mod identity;
pub mod registry;
pub mod sampling;
