//! A resilient point-to-point client handle.
//!
//! The library owns at most one live connection to a remote peer, manages its
//! establishment with a bounded or unbounded retry budget, and serializes
//! message exchange over it.  The connection-lifecycle state machine, the
//! single-slot endpoint ownership model and the send/receive gating are
//! verified here; the runtime that performs the actual dialing, waiting and
//! socket I/O drives these machines from outside.

pub mod client;
pub mod connect;
pub mod errors;
pub mod handle_event;
pub mod options;
