//! Core of a newsletter subscription service: the subscription lifecycle
//! (pending -> confirmed), the confirmation-token handshake, and the
//! delivery fan-out to confirmed subscribers.
//!
//! The HTTP routing, configuration loading and the actual network calls
//! (storage transport, email dispatch) live outside this crate; the logic
//! here works on plain values and is verified.

pub mod configuration;
pub mod confirm;
pub mod domain;
pub mod errors;
pub mod publish;
pub mod store;
pub mod subscription;
