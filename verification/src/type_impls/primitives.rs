//! Single-column values as records of one column.

use vstd::prelude::*;
use crate::backend::Backend;
use crate::deserialize::{
    outcome, DeserializeError, DeserializeFault, FromSql, FromSqlRow, Outcome, Result,
    StaticallySizedRow,
};
use crate::row::{Field, FieldView, Row};
use crate::sql_types::Typed;

verus! {

/// What a single-column value of type `T` is built from `fields`: the decoded
/// first column. A row that has no column left is an error.
pub open spec fn single_built<ST, DB: Backend, T: FromSql<ST, DB>>(
    fields: Seq<FieldView<DB>>,
) -> Outcome<T::V> {
    if fields.len() == 0 {
        Err(DeserializeFault::UnexpectedEndOfRow)
    } else {
        match fields[0].value {
            Some(raw) => T::decode(raw),
            None => T::decode_null(),
        }
    }
}

/// How many columns a single-column value takes from `fields`: one, if there
/// is one.
pub open spec fn single_width<DB: Backend>(fields: Seq<FieldView<DB>>) -> nat {
    if fields.len() == 0 {
        0
    } else {
        1
    }
}

/// Whether the first of `fields` is there and holds NULL.
pub open spec fn single_null<DB: Backend>(fields: Seq<FieldView<DB>>) -> bool {
    fields.len() > 0 && fields[0].value is None
}

/// Builds a single-column value from the next column of `row`.
pub fn build_single<'a, ST, DB: Backend, T: FromSql<ST, DB>, R: Row<'a, DB>>(row: &mut R) -> (result:
    Result<T>)
    ensures
        outcome(result) == single_built::<ST, DB, T>(old(row).remaining()),
        final(row).remaining() == old(row).remaining().skip(
            single_width(old(row).remaining()) as int,
        ),
{
    match row.next() {
        None => {
            assert(row.remaining() =~= old(row).remaining().skip(0));
            Err(DeserializeError::UnexpectedEndOfRow)
        },
        Some(field) => {
            assert(row.remaining() =~= old(row).remaining().skip(1));
            T::from_nullable_sql(field.value())
        },
    }
}

/// Reports whether the next column of `row` holds NULL, and moves past it. A
/// row that has no column left has no null one.
pub fn single_is_null<'a, DB: Backend, R: Row<'a, DB>>(row: &mut R) -> (null: bool)
    ensures
        null == single_null(old(row).remaining()),
        final(row).remaining() == old(row).remaining().skip(
            single_width(old(row).remaining()) as int,
        ),
{
    match row.next() {
        None => {
            assert(row.remaining() =~= old(row).remaining().skip(0));
            false
        },
        Some(field) => {
            assert(row.remaining() =~= old(row).remaining().skip(1));
            field.is_null()
        },
    }
}

impl<ST, DB> FromSqlRow<Typed<ST>, DB> for i32 where DB: Backend, i32: FromSql<ST, DB> {
    open spec fn built(fields: Seq<FieldView<DB>>) -> Outcome<i32> {
        single_built::<ST, DB, i32>(fields)
    }

    open spec fn consumed(fields: Seq<FieldView<DB>>) -> nat {
        single_width(fields)
    }

    open spec fn null_in(fields: Seq<FieldView<DB>>) -> bool {
        single_null(fields)
    }

    open spec fn probed(fields: Seq<FieldView<DB>>) -> nat {
        single_width(fields)
    }

    proof fn lemma_within_row(fields: Seq<FieldView<DB>>) {
    }

    fn build_from_row<'a, R: Row<'a, DB>>(row: &mut R) -> (result: Result<Self>) {
        build_single::<ST, DB, i32, R>(row)
    }

    fn is_null<'a, R: Row<'a, DB>>(row: &mut R) -> (null: bool) {
        single_is_null(row)
    }
}

impl<ST, DB> StaticallySizedRow<Typed<ST>, DB> for i32 where DB: Backend, i32: FromSql<ST, DB> {
    const FIELD_COUNT: usize = 1;

    open spec fn field_count() -> nat {
        1
    }

    proof fn lemma_field_count() {
    }

    proof fn lemma_fixed_width(fields: Seq<FieldView<DB>>) {
    }
}

impl<ST, DB> FromSqlRow<Typed<ST>, DB> for i64 where DB: Backend, i64: FromSql<ST, DB> {
    open spec fn built(fields: Seq<FieldView<DB>>) -> Outcome<i64> {
        single_built::<ST, DB, i64>(fields)
    }

    open spec fn consumed(fields: Seq<FieldView<DB>>) -> nat {
        single_width(fields)
    }

    open spec fn null_in(fields: Seq<FieldView<DB>>) -> bool {
        single_null(fields)
    }

    open spec fn probed(fields: Seq<FieldView<DB>>) -> nat {
        single_width(fields)
    }

    proof fn lemma_within_row(fields: Seq<FieldView<DB>>) {
    }

    fn build_from_row<'a, R: Row<'a, DB>>(row: &mut R) -> (result: Result<Self>) {
        build_single::<ST, DB, i64, R>(row)
    }

    fn is_null<'a, R: Row<'a, DB>>(row: &mut R) -> (null: bool) {
        single_is_null(row)
    }
}

impl<ST, DB> StaticallySizedRow<Typed<ST>, DB> for i64 where DB: Backend, i64: FromSql<ST, DB> {
    const FIELD_COUNT: usize = 1;

    open spec fn field_count() -> nat {
        1
    }

    proof fn lemma_field_count() {
    }

    proof fn lemma_fixed_width(fields: Seq<FieldView<DB>>) {
    }
}

impl<ST, DB> FromSqlRow<Typed<ST>, DB> for bool where DB: Backend, bool: FromSql<ST, DB> {
    open spec fn built(fields: Seq<FieldView<DB>>) -> Outcome<bool> {
        single_built::<ST, DB, bool>(fields)
    }

    open spec fn consumed(fields: Seq<FieldView<DB>>) -> nat {
        single_width(fields)
    }

    open spec fn null_in(fields: Seq<FieldView<DB>>) -> bool {
        single_null(fields)
    }

    open spec fn probed(fields: Seq<FieldView<DB>>) -> nat {
        single_width(fields)
    }

    proof fn lemma_within_row(fields: Seq<FieldView<DB>>) {
    }

    fn build_from_row<'a, R: Row<'a, DB>>(row: &mut R) -> (result: Result<Self>) {
        build_single::<ST, DB, bool, R>(row)
    }

    fn is_null<'a, R: Row<'a, DB>>(row: &mut R) -> (null: bool) {
        single_is_null(row)
    }
}

impl<ST, DB> StaticallySizedRow<Typed<ST>, DB> for bool where DB: Backend, bool: FromSql<ST, DB> {
    const FIELD_COUNT: usize = 1;

    open spec fn field_count() -> nat {
        1
    }

    proof fn lemma_field_count() {
    }

    proof fn lemma_fixed_width(fields: Seq<FieldView<DB>>) {
    }
}

impl<ST, DB> FromSqlRow<Typed<ST>, DB> for String where DB: Backend, String: FromSql<ST, DB> {
    open spec fn built(fields: Seq<FieldView<DB>>) -> Outcome<Seq<char>> {
        single_built::<ST, DB, String>(fields)
    }

    open spec fn consumed(fields: Seq<FieldView<DB>>) -> nat {
        single_width(fields)
    }

    open spec fn null_in(fields: Seq<FieldView<DB>>) -> bool {
        single_null(fields)
    }

    open spec fn probed(fields: Seq<FieldView<DB>>) -> nat {
        single_width(fields)
    }

    proof fn lemma_within_row(fields: Seq<FieldView<DB>>) {
    }

    fn build_from_row<'a, R: Row<'a, DB>>(row: &mut R) -> (result: Result<Self>) {
        build_single::<ST, DB, String, R>(row)
    }

    fn is_null<'a, R: Row<'a, DB>>(row: &mut R) -> (null: bool) {
        single_is_null(row)
    }
}

impl<ST, DB> StaticallySizedRow<Typed<ST>, DB> for String where DB: Backend, String: FromSql<ST, DB> {
    const FIELD_COUNT: usize = 1;

    open spec fn field_count() -> nat {
        1
    }

    proof fn lemma_field_count() {
    }

    proof fn lemma_fixed_width(fields: Seq<FieldView<DB>>) {
    }
}

} // verus!
