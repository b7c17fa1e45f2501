//! Subscription/dispatch registry for telephony state-change notifications.
//!
//! Callers subscribe to categories of notifications (network state, SIM
//! state, signal strength, cell topology, data-connection state, call state,
//! data-flow activity, account changes), scoped to a hardware slot. The
//! registry stores the listener records, reconciles register/unregister
//! requests so that the underlying notification source is asked to start or
//! stop producing events exactly on the empty/non-empty transitions, and
//! routes an incoming event to the callback handles of the matching records.

pub mod bridge;
pub mod laws;
pub mod register;
pub mod wrapper;
