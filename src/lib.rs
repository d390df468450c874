//! A unified error type for a network path library: a closed classification,
//! a human-readable description, and the foreign failure it wraps, if any.
pub mod error;

pub use error::{bail, fail_with, ErrorCause, ErrorType, PathError, PathResult};
