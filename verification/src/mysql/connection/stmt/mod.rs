//! A prepared statement as the adapter sees it, and the iteration over the
//! rows it delivers.

pub mod iterator;
pub mod metadata;
pub mod statement;
