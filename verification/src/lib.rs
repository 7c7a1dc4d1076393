//! An in-memory key-value store with optional per-entry time-to-live,
//! together with the line-delimited JSON protocol that drives it.

pub mod clock;
pub mod json;
pub mod protocol;
pub mod session;
pub mod store;
