//! The backend marker, the argument handle and the raw value of the
//! in-process backend.

use vstd::prelude::*;
use crate::backend::{Backend, HasSqlType, TypeMetadata};
use crate::sql_types::{BigInt, Binary, Bool, Integer, Nullable, SqlType, NotNull, Text};

verus! {

/// The in-process backend.
pub struct Sqlite;

/// The storage class under which the engine binds or returns a value.
#[derive(Debug, Clone, Copy, PartialEq, Eq, Structural)]
pub enum SqliteType {
    Binary,
    Text,
    Integer,
    Long,
}

/// One argument as the engine hands it to a registered function: a value of
/// one of its storage classes, or NULL. A real number is held as the bits of
/// its 64-bit representation.
#[derive(Clone, Copy)]
pub enum RawArgument<'a> {
    Null,
    Integer(i64),
    Real(u64),
    Text(&'a str),
    Blob(&'a [u8]),
}

/// The raw value of one non-null argument.
#[derive(Clone, Copy)]
pub enum SqliteValue<'a> {
    Integer(i64),
    Real(u64),
    Text(&'a str),
    Blob(&'a [u8]),
}

/// A `SqliteValue` as a mathematical value.
pub enum SqliteValueView {
    Integer(i64),
    Real(u64),
    Text(Seq<char>),
    Blob(Seq<u8>),
}

impl<'a> View for SqliteValue<'a> {
    type V = SqliteValueView;

    open spec fn view(&self) -> SqliteValueView {
        match self {
            SqliteValue::Integer(value) => SqliteValueView::Integer(*value),
            SqliteValue::Real(bits) => SqliteValueView::Real(*bits),
            SqliteValue::Text(text) => SqliteValueView::Text(text@),
            SqliteValue::Blob(bytes) => SqliteValueView::Blob(bytes@),
        }
    }
}

/// What an argument handle holds: nothing for NULL, else its value.
pub open spec fn argument_value(arg: RawArgument<'_>) -> Option<SqliteValueView> {
    match arg {
        RawArgument::Null => None,
        RawArgument::Integer(value) => Some(SqliteValueView::Integer(value)),
        RawArgument::Real(bits) => Some(SqliteValueView::Real(bits)),
        RawArgument::Text(text) => Some(SqliteValueView::Text(text@)),
        RawArgument::Blob(bytes) => Some(SqliteValueView::Blob(bytes@)),
    }
}

impl<'a> SqliteValue<'a> {
    /// The value behind an argument handle; `None` for NULL. Every reading
    /// of an argument goes through here.
    pub fn new(arg: RawArgument<'a>) -> (value: Option<Self>)
        ensures
            crate::backend::raw_model::<Sqlite>(value) == argument_value(arg),
    {
        match arg {
            RawArgument::Null => None,
            RawArgument::Integer(value) => Some(SqliteValue::Integer(value)),
            RawArgument::Real(bits) => Some(SqliteValue::Real(bits)),
            RawArgument::Text(text) => Some(SqliteValue::Text(text)),
            RawArgument::Blob(bytes) => Some(SqliteValue::Blob(bytes)),
        }
    }
}

impl Backend for Sqlite {
    type RawValue<'a> = SqliteValue<'a>;
}

impl TypeMetadata for Sqlite {
    type TypeMetadata = SqliteType;

    type MetadataLookup = ();
}

impl HasSqlType<Integer> for Sqlite {
    open spec fn type_of() -> SqliteType {
        SqliteType::Integer
    }

    fn metadata(lookup: &()) -> (metadata: SqliteType) {
        SqliteType::Integer
    }
}

impl HasSqlType<BigInt> for Sqlite {
    open spec fn type_of() -> SqliteType {
        SqliteType::Long
    }

    fn metadata(lookup: &()) -> (metadata: SqliteType) {
        SqliteType::Long
    }
}

impl HasSqlType<Bool> for Sqlite {
    open spec fn type_of() -> SqliteType {
        SqliteType::Integer
    }

    fn metadata(lookup: &()) -> (metadata: SqliteType) {
        SqliteType::Integer
    }
}

impl HasSqlType<Text> for Sqlite {
    open spec fn type_of() -> SqliteType {
        SqliteType::Text
    }

    fn metadata(lookup: &()) -> (metadata: SqliteType) {
        SqliteType::Text
    }
}

impl HasSqlType<Binary> for Sqlite {
    open spec fn type_of() -> SqliteType {
        SqliteType::Binary
    }

    fn metadata(lookup: &()) -> (metadata: SqliteType) {
        SqliteType::Binary
    }
}

} // verus!
