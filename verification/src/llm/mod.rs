//! Chat providers: how requests are shaped and responses read.

pub mod types;
pub mod provider;
pub mod stream;
pub mod anthropic;
pub mod gemini;
pub mod openai;
pub mod ollama;
