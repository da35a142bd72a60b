//! Supervisor and gateway for an external compute backend.
//!
//! The crate models the lifecycle of a single supervised backend process,
//! the readiness-probing protocol that follows a start, the shared
//! application state that all components read and update, and the gateway
//! logic that maps backend responses (or their absence) to client replies.

pub mod gateway;
pub mod json;
pub mod prober;
pub mod session;
pub mod state;
pub mod supervisor;
