//! The pre-bound-buffer backend: a statement writes each row it fetches into
//! one set of output buffers, which a cursor then reads.

pub mod backend;
pub mod connection;
pub mod types;
