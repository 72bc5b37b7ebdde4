//! Coordination logic of a per-node WireGuard mesh agent.
//!
//! Every node allocates itself a tunnel address from a shared overlay
//! subnet, publishes its peer record in a key/value registry under a
//! session-bound lock, and keeps its local interface configuration equal to
//! the registry's peer set. This crate holds the decisions of that agent as
//! verified functions from plain values to plain values; performing the
//! requests, the timers and the file writes is left to the caller.

pub mod agent;
pub mod allocator;
pub mod args;
pub mod consul;
pub mod inifile;
pub mod ip;
pub mod keys;
pub mod networkd;
pub mod supervisor;
pub mod sweep;
pub mod text;
pub mod wireguard;
