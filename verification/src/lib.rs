//! A keyed cache of authenticated HTTP clients whose validity is bounded by the
//! lifetime of the access token they carry.
//!
//! A caller hands in an API key and secret. While the client cached under that key
//! is still valid it is handed out again; once it has expired (or when there is
//! none) the credentials are exchanged for a fresh token, a new client is built
//! around that token and stored in place of the old one.

pub mod auth;
pub mod cache;
pub mod client;
pub mod header;
