//! Host-side client library for the Sahara boot-loader handshake protocol
//! spoken by certain embedded SoCs in emergency download mode over USB bulk
//! transfers.
//!
//! The library contains the protocol logic only: the packet codec
//! ([`wire`]), the device-selection and interface-claim rules ([`session`]),
//! and the request/response state machine that drives the handshake and every
//! subsequent exchange ([`engine`]). The engine never touches a USB stack:
//! it hands its caller actions (bytes to send, lengths to read) and consumes
//! events (bytes received, transport faults), so an unverified shell can run
//! the actual transfers.

pub mod engine;
pub mod session;
pub mod wire;
