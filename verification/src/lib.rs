//! A text search engine for Find in Path: configuration, file walking,
//! matching with context and line-kind filters, result merging, and the
//! bookkeeping of streamed searches driven from the JVM.
//!
//! - `search`: configuration, walking, matching, merging
//! - `jni`: the plain-value side of the JVM bridge
//! - `util`: text, path and platform helpers

pub mod error;
pub mod jni;
pub mod search;
pub mod util;

pub use error::{SearchError, SearchResult};
pub use search::config::SearchConfig;
pub use search::engine::SearchEngine;
pub use search::matcher::SearchMatch;
