//! Lifetime, identity and signal bookkeeping for objects owned by a host
//! runtime, modelled as a verified state machine.
pub mod host;
pub mod laws;
pub mod signal;
