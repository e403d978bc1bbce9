//! Connection manager and scan coordinator for a single station-mode radio.
//!
//! The radio driver itself is asynchronous and lives outside this crate; what
//! is decided here is verified: which credentials are accepted, the one-shot
//! bring-up state machine, the work one scan performs and how its result is
//! rendered.
pub mod bring_up;
pub mod credentials;
pub mod error;
pub mod scan;
