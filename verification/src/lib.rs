//! Interactive-shell session engine for container targets.
//!
//! The library decides, step by step, how a session against a container
//! engine daemon is bootstrapped: resolving a target string to a running
//! container or an image, locating a usable shell by ordered probing,
//! building the exec request, relaying the interactive streams, and
//! guaranteeing that an ephemeral container created for the session is
//! removed exactly once on every exit path.  All daemon I/O is performed
//! by the caller, which feeds the resulting events back into the engine.

pub mod config;
pub mod engine;
pub mod errors;
pub mod lifecycle;
pub mod locate;
pub mod relay;
pub mod resolve;

pub use errors::Fault;
pub use errors::Outcome;
