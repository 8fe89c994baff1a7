//! Client-side logic for a Lightning-Network wallet service: the decoding of
//! payment notifications that arrive over a server-sent-event stream, a
//! WebSocket and a webhook, the bounded channel that hands them to the
//! application, and the connection state of each transport.
//!
//! Everything here is a function from plain values to plain values. Network
//! reads, timers and task scheduling are left to the caller, which feeds what
//! it received into these functions and performs what they answer.

pub mod json;
pub mod text;
pub mod decoder;
pub mod api;
pub mod channel;
pub mod multiplexer;
