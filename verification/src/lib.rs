//! Core of a layer-7 reverse proxy that spreads inbound connections over a
//! pool of backend servers.
//!
//! The crate holds the three pieces worth reasoning about: the backend
//! registry with its mutable health state, the selection policy (round robin
//! as the default), and the decision logic of the health checker and of the
//! per-connection proxy handler. Listening, connecting and byte shuffling are
//! left to the surrounding runtime, which feeds this library plain values
//! (probe outcomes, connection events) and carries out the actions it
//! returns.

pub mod health;
pub mod proxy;
pub mod registry;
pub mod selection;
