//! Client library for a media-hosting REST service.
//!
//! The library covers the authenticated request subsystem: OAuth2
//! client-credentials token acquisition with expiration tracking, the
//! per-operation mapping from HTTP status codes to domain outcomes, and the
//! decoding of JSON response bodies into typed resource records.  Network
//! transport is left to the embedding program: every function here works on
//! plain values (status codes, body text, instants in seconds), so the whole
//! request discipline is verified.

pub mod api;
pub mod error;
pub mod json;
pub mod resources;
pub mod text;
pub mod token;
