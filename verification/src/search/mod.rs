//! The search core: configuration, walking, matching with context and
//! line-kind filters, and the merging of results.

pub mod config;
pub mod context;
pub mod engine;
pub mod line_kind;
pub mod matcher;
pub mod stream;
pub mod walker;

pub use config::SearchConfig;
pub use engine::SearchEngine;
pub use line_kind::LineKind;
pub use matcher::SearchMatch;
