//! Decision logic of a peer connection manager: its error taxonomy, the
//! dialer's address selection and retry policy, the connection table kept by
//! the coordinating actor, and the listener's bind bookkeeping.

pub mod error;
pub mod outside;
pub mod actor;
pub mod dialer;
pub mod lifecycle;
pub mod listener;
