//! A verified core for a real-time visual-tracking session.
//!
//! Camera frames arrive in several raw pixel encodings and are normalized
//! into a canonical interleaved RGB buffer before being handed to an
//! external detection engine.  The engine's replies are mapped into a
//! stable result model, per-session statistics are aggregated, and results
//! are delivered either synchronously, as a batch, or over a push stream.
//!
//! The detection engine itself is an external collaborator: it is driven by
//! the surrounding (unverified) runtime, which feeds its replies back into
//! the session as plain values.  Everything else - pixel normalization,
//! frame validation, the session state machine, statistics, and the stream
//! publisher - is specified and verified here.

pub mod api;
pub mod models;
pub mod pixel;
pub mod registry;
pub mod stats;
pub mod stream;
pub mod tracker;
