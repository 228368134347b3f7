//! Request-translation and backend-connection core of a geocoding HTTP
//! gateway.
//!
//! The gateway receives free-text and coordinate-based search requests,
//! normalizes their raw query parameters into domain filters, dispatches
//! them to per-endpoint handlers backed by a shared, version-validated
//! connection to a remote document search service, and wraps every result
//! in a fixed response envelope.
//!
//! This crate holds the decision logic of that pipeline; the surrounding
//! process (socket handling, the HTTP server, logging) lives outside and
//! feeds plain values in and out.

pub mod api;
pub mod connection;
pub mod dispatch;
pub mod server;
pub mod version;
