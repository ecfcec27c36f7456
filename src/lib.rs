//! Edge-triggered readiness bridging for non-blocking message sockets.
//!
//! The library holds the decisions of an asynchronous socket wrapper: which
//! directions a socket pattern may use, the per-direction slots that park a
//! suspended task, and the state machine that tells the driver what to do
//! after each non-blocking attempt and each readiness re-check.
pub mod convert;
pub mod pattern;
pub mod waker;
pub mod socket;
