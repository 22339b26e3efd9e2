//! `Option` as the target of a nullable column or record.

use vstd::prelude::*;
use crate::backend::{Backend, HasRowMetadata, HasSqlType};
use crate::deserialize::{
    outcome, DeserializeError, FromSql, FromSqlRow, Outcome, Result, StaticallySizedRow,
};
use crate::row::{FieldView, Row};
use crate::sql_types::{IntoNotNullable, IsNullable, NotNull, Nullable, SqlType, Typed};

verus! {

/// What `Some` of a decoded value is: the same outcome, one level up.
pub open spec fn wrap_some<V>(inner: Outcome<V>) -> Outcome<Option<V>> {
    match inner {
        Ok(value) => Ok(Some(value)),
        Err(fault) => Err(fault),
    }
}

impl<T, DB> HasSqlType<Nullable<T>> for DB where DB: Backend + HasSqlType<T>, T: SqlType {
    /// A nullable type is described as the type it wraps.
    open spec fn type_of() -> DB::TypeMetadata {
        <DB as HasSqlType<T>>::type_of()
    }

    fn metadata(lookup: &DB::MetadataLookup) -> (metadata: DB::TypeMetadata) {
        <DB as HasSqlType<T>>::metadata(lookup)
    }
}

impl<T, DB> HasRowMetadata<Nullable<T>> for DB where DB: Backend + HasRowMetadata<T>, T: SqlType {
    open spec fn row_types() -> Seq<DB::TypeMetadata> {
        <DB as HasRowMetadata<T>>::row_types()
    }

    fn mysql_row_metadata(out: &mut Vec<DB::TypeMetadata>, lookup: &DB::MetadataLookup) {
        <DB as HasRowMetadata<T>>::mysql_row_metadata(out, lookup)
    }
}

impl<T, ST, DB> FromSql<Nullable<ST>, DB> for Option<T> where
    T: FromSql<ST, DB>,
    DB: Backend,
    ST: SqlType<IsNull = NotNull>,
 {
    open spec fn decode(raw: crate::backend::RawModel<DB>) -> Outcome<Option<T::V>> {
        wrap_some(T::decode(raw))
    }

    open spec fn decode_null() -> Outcome<Option<T::V>> {
        Ok(None)
    }

    fn from_sql(bytes: DB::RawValue<'_>) -> (result: Result<Self>) {
        match T::from_sql(bytes) {
            Ok(value) => Ok(Some(value)),
            Err(error) => Err(error),
        }
    }

    fn from_nullable_sql(bytes: Option<DB::RawValue<'_>>) -> (result: Result<Self>) {
        match bytes {
            Some(bytes) => match T::from_sql(bytes) {
                Ok(value) => Ok(Some(value)),
                Err(error) => Err(error),
            },
            None => Ok(None),
        }
    }
}

impl<T, ST, DB> FromSqlRow<Typed<ST>, DB> for Option<T> where
    DB: Backend,
    ST: SqlType<IsNull = IsNullable> + IntoNotNullable,
    T: FromSqlRow<Typed<ST::NotNullable>, DB>,
 {
    /// `None` where the inner value is null, else the inner value in `Some`.
    open spec fn built(fields: Seq<FieldView<DB>>) -> Outcome<Option<T::V>> {
        if T::null_in(fields) {
            Ok(None)
        } else {
            wrap_some(T::built(fields))
        }
    }

    /// Where the inner value is null the cursor moves past the columns that
    /// the null check looked at; else building the inner value moves it.
    open spec fn consumed(fields: Seq<FieldView<DB>>) -> nat {
        if T::null_in(fields) {
            T::probed(fields)
        } else {
            T::consumed(fields)
        }
    }

    /// An optional value is never itself the missing one.
    open spec fn null_in(fields: Seq<FieldView<DB>>) -> bool {
        false
    }

    open spec fn probed(fields: Seq<FieldView<DB>>) -> nat {
        T::probed(fields)
    }

    proof fn lemma_within_row(fields: Seq<FieldView<DB>>) {
        T::lemma_within_row(fields);
    }

    fn build_from_row<'a, R: Row<'a, DB>>(row: &mut R) -> (result: Result<Self>) {
        let mut probe = row.duplicate();
        if T::is_null(&mut probe) {
            *row = probe;
            Ok(None)
        } else {
            match T::build_from_row(row) {
                Ok(value) => Ok(Some(value)),
                Err(error) => Err(error),
            }
        }
    }

    fn is_null<'a, R: Row<'a, DB>>(row: &mut R) -> (null: bool) {
        T::is_null(row);
        false
    }
}

impl<T, ST, DB> StaticallySizedRow<Typed<Nullable<ST>>, DB> for Option<T> where
    T: StaticallySizedRow<Typed<ST>, DB>,
    ST: SqlType<IsNull = NotNull>,
    DB: Backend,
 {
    const FIELD_COUNT: usize = T::FIELD_COUNT;

    open spec fn field_count() -> nat {
        T::field_count()
    }

    proof fn lemma_field_count() {
        T::lemma_field_count();
    }

    proof fn lemma_fixed_width(fields: Seq<FieldView<DB>>) {
        T::lemma_fixed_width(fields);
    }
}

/// An optional value reads SQL NULL as `None`, whatever it wraps, and a
/// present value as the wrapped type reads it.
pub proof fn lemma_null_is_none<T, ST, DB>(raw: crate::backend::RawModel<DB>) where
    T: FromSql<ST, DB>,
    DB: Backend,
    ST: SqlType<IsNull = NotNull>,

    ensures
        <Option<T> as FromSql<Nullable<ST>, DB>>::decode_null() == Outcome::<Option<T::V>>::Ok(None),
        <Option<T> as FromSql<Nullable<ST>, DB>>::decode(raw) == wrap_some(T::decode(raw)),
{
}

} // verus!
