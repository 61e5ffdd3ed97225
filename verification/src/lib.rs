//! Secure Simple Pairing core for a BR/EDR Link Manager Protocol emulator.
//!
//! The crate models the pairing initiator and responder as deterministic
//! machines over an explicit event script: inbound HCI commands and LMP
//! packets are consumed in order from a script, and every emitted HCI event
//! and LMP packet is appended to a trace. The contracts pin down, for every
//! script, exactly which events are emitted and which outcome is reported.

pub mod bytes;
pub mod context;
pub mod key;
pub mod laws;
pub mod packets;
pub mod pairing;
pub mod stage1;
pub mod transfer;
pub mod types;
