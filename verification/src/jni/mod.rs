//! The plain-value side of the JVM bridge: argument conversion, the session
//! and cancellation registries, and the decisions of a results poll.

pub mod convert;
pub mod poll;
pub mod record;
pub mod session;
