//! Core of a bidirectional streaming RPC client for a proof-of-work
//! cryptocurrency node.
//!
//! The client multiplexes many concurrent application-level calls onto a
//! single long-lived duplex message stream, correlates asynchronous responses
//! with their originating requests, enforces per-request timeouts, and fans
//! out server-initiated notifications to a dynamic set of local subscribers.
//!
//! The library is organised as a synchronous state machine: every decision the
//! client makes (correlating a response, expiring a pending request, choosing
//! which listeners receive a notification, issuing a wire subscribe command)
//! is a verified function from state and event to new state and actions. The
//! asynchronous harness that owns the transport runs those decisions in its
//! send, receive and reaper loops.

pub mod address;
pub mod client;
pub mod derivation;
pub mod difficulty;
pub mod errors;
pub mod message;
pub mod notification;
pub mod notifier;
pub mod ops;
pub mod resolver;
pub mod session;
pub mod subscription;
