//! A completed result set and the cursor over one of its rows.

pub mod result;
pub mod row;
