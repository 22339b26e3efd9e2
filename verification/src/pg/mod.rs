//! The binary-protocol backend: a query's whole result set is at hand, and a
//! value is found in it by row and column.

pub mod backend;
pub mod connection;
pub mod expression;
pub mod types;
