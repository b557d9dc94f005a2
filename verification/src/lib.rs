//! Data models for the message protocol spoken between a remote-control hub
//! and its integration drivers.
//!
//! The heart of the crate is the WebSocket message envelope in [`ws`]: the
//! three message kinds (request, response, event), constructors that build
//! structurally valid envelopes, and a lenient JSON object form for
//! best-effort parsing. [`util`] holds the locale-fallback text lookup.
//! The remaining modules declare the entity, integration and settings
//! schemas that ride inside the envelopes.

pub mod core_entity;
pub mod core_web;
pub mod entity;
pub mod integration;
pub mod intg;
pub mod json;
pub mod model;
pub mod util;
pub mod web;
pub mod ws;
