//! What the in-process backend registers with the engine and hands back to it.

pub mod functions;
pub mod serialized_value;
