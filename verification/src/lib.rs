//! Streaming audio tokenizer library: a fixed model configuration, an
//! arena-based handle registry with generation counters, and a buffer
//! transfer protocol for code matrices produced by the encoder.

pub mod adapter;
pub mod codes;
pub mod config;
pub mod registry;
