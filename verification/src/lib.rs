//! Connection acceptance and dispatch for a mixnet gateway's client ingress.
//!
//! The listener owns the accept loop of the gateway's client-facing socket.
//! Each accepted connection becomes an independently scheduled connection
//! task that carries copies of the shared long-lived handles (identity
//! keypair, registry sender, forwarding sender). This crate verifies the
//! dispatch decisions: which task is built for which accepted connection,
//! in which order tasks go out, that accept failures never stop the loop,
//! that a bind failure is fatal, and that the shared context reaches every
//! task unchanged. The I/O itself — binding, accepting, task scheduling —
//! is left to the caller, which feeds accept outcomes in and performs the
//! returned dispatch actions.

pub mod context;
pub mod laws;
pub mod listener;
