//! Output buffers and the statement that fills them.

pub mod bind;
pub mod stmt;
