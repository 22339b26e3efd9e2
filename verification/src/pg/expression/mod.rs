//! Expressions that only the binary-protocol backend's database knows.

pub mod date_and_time;
