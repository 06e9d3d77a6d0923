//! Core logic of a small gateway that authenticates a user against a music
//! streaming service over OAuth and then drives playback with the resulting
//! bearer token.
//!
//! Everything here is pure decision logic: building the authorize URL,
//! extracting the authorization code from a redirect URL, collapsing upstream
//! playback answers into one normalized snapshot, sequencing the two-step
//! playback-start protocol, and rendering the gateway's JSON response bodies.
//! The HTTP server, environment loading and the network calls themselves live
//! in the embedding application, which feeds their outcomes in as plain
//! values.

pub mod config;
pub mod oauth;
pub mod playback;
pub mod responses;
pub mod text;
