//! Verified core of a small anime watch-list service: reading the
//! allanime provider's answers, choosing streaming sources and links,
//! decoding obfuscated source URLs, and the decisions behind the
//! HTTP routes and the Google sign-in flow.
pub mod auth;
pub mod models;
pub mod provider;
pub mod routes;
pub mod text;
