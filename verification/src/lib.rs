//! Verified core of an electric-vehicle charging-session authenticator.
//!
//! The library owns the single authoritative session state (`AuthState`) and
//! the state machine that sequences the outbound gateway round trips of a
//! login, logout or reset: card-reader tag lookup, contract/tariff lookup,
//! backend authorize, backend transaction start/stop and energy-meter
//! subscribe/unsubscribe.  The machine decides; the host performs the actual
//! round trips and feeds their outcomes back in as events.

pub mod errors;
pub mod laws;
pub mod manager;
pub mod state;
