//! Liveness tracking for a fleet of self-registering nodes.
//!
//! Each node announces its own address into a shared status store at a
//! fixed cadence and answers health checks with the peers whose last
//! announcement is recent enough.

pub mod api;
pub mod bootstrap;
pub mod clock;
pub mod heartbeat;
pub mod models;
pub mod node;
pub mod repo;
pub mod resolver;
