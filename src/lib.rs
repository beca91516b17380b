//! Profile lookup for an online gaming identity service: profile URLs are
//! normalised into cache keys, resolved to player identifiers, enriched with
//! match statistics and served through a cache-aside pipeline.
//!
//! Everything here is pure: the network, the cache store and JSON decoding
//! are driven by the caller, which hands results back as plain values.

pub mod cache;
pub mod error;
pub mod headers;
pub mod faceit;
pub mod numbers;
pub mod pipeline;
pub mod player;
pub mod profile_url;
pub mod steam;
pub mod text;


