//! Resource-lifecycle and ABI-version negotiation for a GPU screen-capture to
//! hardware-encoder pipeline.
//!
//! Everything here is pure logic: the version tags stamped into driver
//! requests, the encoder preset merge, and the initialization state machine
//! that decides which driver call comes next and what to release on failure.
//! The driver calls themselves are made by the caller, which feeds their
//! outcomes back as events.
pub mod error;
pub mod modules;
pub mod pipeline;
pub mod preset;
pub mod version;
