//! Connection management for a client that must reach a small set of backend
//! services across hostile or censoring networks.
//!
//! The crate models the orchestration layer only: it owns and atomically swaps
//! the per-service endpoint configuration and proxy state, debounces
//! network-change notifications, and lets composed connection strategies have
//! every terminal transport swapped for a test double without changing the
//! composition shape. The concrete transport (DNS, TCP, TLS) is out of scope
//! and is represented by plain data.

pub mod connector;
pub mod endpoints;
pub mod environment;
pub mod event;
pub mod manager;
pub mod transport;
