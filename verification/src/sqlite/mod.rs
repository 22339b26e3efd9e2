//! The in-process backend: the database engine calls registered functions
//! with their arguments as an array of handles.

pub mod backend;
pub mod connection;
pub mod types;
