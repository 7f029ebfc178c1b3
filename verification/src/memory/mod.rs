//! Memory engine logic: chunking, deduplication, timeline and working memory.

pub mod chunking;
pub mod deduplicator;
pub mod timeline_builder;
pub mod working_memory;
pub mod engine;
