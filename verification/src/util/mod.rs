//! Helpers: text, paths and the platform's library naming.

pub mod path;
pub mod platform;
pub mod shared;
pub mod text;
