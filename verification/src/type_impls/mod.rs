//! The conversions of the types that compose others: `Option` and the tuples.

pub mod option;
pub mod primitives;
pub mod tuples;
