//! Verified core of a polling client for a livestreaming platform's comment
//! API.
//!
//! The library holds everything the client decides or computes: loading
//! credentials from raw file contents, building request URLs and headers,
//! classifying API responses, the per-cycle polling step that orders comments
//! chronologically and advances the pagination cursor, and the write-once
//! token cell filled by the OAuth callback. Network and file I/O live outside
//! the library and hand it plain values.

pub mod api;
pub mod credentials;
pub mod oauth;
pub mod poller;
