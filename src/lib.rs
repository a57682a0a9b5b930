//! Realtime clipboard synchronisation engine: per-device admission control,
//! bounded per-user history, per-user broadcast groups and the decisions a
//! connection makes while it relays clipboard changes.

pub mod models;
pub mod rate_limit;
pub mod maps;
pub mod state;
pub mod session;
pub mod error;
pub mod laws;
