//! Contexa: desktop context capture, memory and AI orchestration logic.

pub mod text;
pub mod types;
pub mod runtime;
pub mod hex;
pub mod model;
pub mod memory;
pub mod context;
pub mod orchestrator;
pub mod llm;
pub mod mcp;
pub mod db;
pub mod commands;
