//! Client-side synchronisation engine for a turn-based game server: registration
//! with backoff, snapshot polling, batched move submission and reconciliation of
//! finished network operations into a single world snapshot.

pub mod api;
pub mod backoff;
mod clock;
pub mod engine;
pub mod keyed;
pub mod pending;
pub mod rate_limiter;
pub mod text;
pub mod timer;
pub mod transport;
pub mod types;
pub mod world;
