//! Supervision logic for keeping a cellular modem connected.
//!
//! The library holds the verified core of a modem supervisor: the codec that
//! turns raw integer status codes into semantic states, the extractor that
//! reads the modem's reported state out of a status snapshot, the non-blocking
//! arbiter that keeps two concurrent monitors from racing each other, and the
//! step function that drives each monitor's decisions. All bus transport,
//! logging and process bootstrapping live outside the library.

pub mod arbiter;
pub mod codec;
pub mod monitor;
pub mod snapshot;
