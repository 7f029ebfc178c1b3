//! Context engine logic: snapshot assembly, enrichment, change detection and caching.

pub mod enricher;
pub mod chromium;
pub mod vscode;
pub mod selection;
pub mod language;
pub mod change_detector;
pub mod assembler;
pub mod cache;
pub mod registry;
pub mod engine;
