//! Core logic of a feed-to-podcast service: cache key derivation, the
//! generate-or-serve flow for synthesized audio, retention sweeps over the
//! cache directory, and rewriting of feed items toward the audio endpoint.

pub mod cache;
pub mod data;
pub mod extract;
pub mod feed;
pub mod flow;
pub mod keys;
pub mod schemas;
pub mod templates;
pub mod text;
pub mod tts;
