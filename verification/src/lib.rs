//! Streaming filter, enrichment and upsert planning for social-network
//! commit events.
//!
//! A raw event is accepted when it is the creation of a post written in
//! one configured language and carrying a non-empty text. An accepted
//! event is enriched with an embedding vector and, optionally, sentiment
//! fields, and becomes one point to be written to a vector index.

pub mod json;
pub mod filter;
pub mod sentiment;
pub mod embedding;
pub mod enrich;
pub mod pipeline;
pub mod driver;
pub mod laws;
