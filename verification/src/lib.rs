//! Typed deserialization of database rows.
//!
//! A backend hands out each fetched record in a representation of its own.
//! An adapter presents that record as a [`row::Row`], a cursor over the
//! record's columns, and the conversions of [`deserialize`] build application
//! values from the cursor: [`deserialize::FromSql`] from one column,
//! [`deserialize::FromSqlRow`] from as many columns as the value spans.
//! Tuples and `Option` compose such values ([`type_impls`]); a record can
//! also pick its columns by name ([`queryable_by_name`]).
//!
//! There is one adapter per way in which a record reaches the client: a
//! completed result set that is indexed by row and column ([`pg`]), one set
//! of output buffers that the driver refills for each row ([`mysql`]), and
//! the argument handles of a function that the database engine calls
//! ([`sqlite`]).
//!
//! Every conversion states what it returns and how far it moves the cursor
//! over the mathematical view of the columns, and is proved to do so.

pub mod backend;
pub mod codec;
pub mod codegen;
pub mod deserialize;
pub mod expression;
pub mod infer_schema_internals;
pub mod mysql;
pub mod pg;
pub mod query_builder;
pub mod queryable_by_name;
pub mod result;
pub mod round_trip;
pub mod row;
pub mod serialize;
pub mod sql_types;
pub mod sqlite;
pub mod type_impls;
