//! Frame codec and device-side decisions of the DCC test tool.
//!
//! The `model` module holds the wire format of DCC packets (headers, bodies,
//! the I/O data a device reports) with verified encoders and decoders; the
//! `backend` module holds the messages exchanged between the user interface
//! and the backend, and the backend's routing decision.
pub mod model;
pub mod backend;
