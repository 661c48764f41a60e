//! Core of an XMPP <-> chat-completion bridge.
//!
//! Each authorized peer gets a private, stateful conversation with a remote
//! completion API: inbound chat messages are classified and routed to a
//! per-peer conversation actor under flow control, and completions travel
//! back as chat messages.  This crate holds the decision logic of that
//! bridge — inbound classification, the session-multiplexing engine with its
//! lazily created actor registry, the bounded-queue backpressure policy, and
//! the transport session state machine — all verified.  The asynchronous
//! shell (the transport connection itself and the completion HTTP calls)
//! lives outside and drives these functions.

pub mod actor;
pub mod engine;
pub mod inbound;
pub mod message;
pub mod queue;
pub mod xmpp;
