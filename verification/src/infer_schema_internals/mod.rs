//! What schema inference knows of tables and columns, and how it reads that
//! from the rows of the database's own catalogue.

pub mod inference;
pub mod text_order;
pub mod data_structures;
pub mod table_data;
