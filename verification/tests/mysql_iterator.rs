use diesel_rows::deserialize::{DeserializeError, FromSqlRow, IsCompatibleType};
use diesel_rows::mysql::backend::{Mysql, MysqlType};
use diesel_rows::mysql::connection::bind::{BindData, Binds};
use diesel_rows::mysql::connection::stmt::iterator::{MysqlRow, StatementIterator};
use diesel_rows::mysql::connection::stmt::metadata::{MysqlFieldMetadata, StatementMetadata};
use diesel_rows::mysql::connection::stmt::statement::Statement;
use diesel_rows::result::{DatabaseErrorKind, Error, QueryResult};
use diesel_rows::row::{Field, Row};
use diesel_rows::sql_types::{Bool, Integer, Nullable, Text, Typed, Untyped};
use std::cell::Cell;

type Int = Typed<Integer>;
type Txt = Typed<Text>;

fn columns() -> StatementMetadata {
    StatementMetadata::new(vec![
        MysqlFieldMetadata::new(Some("id".to_string()), MysqlType::Long),
        MysqlFieldMetadata::new(Some("name".to_string()), MysqlType::String),
    ])
}

fn int4(value: i32) -> Option<Vec<u8>> {
    Some(value.to_le_bytes().to_vec())
}

fn text(value: &str) -> Option<Vec<u8>> {
    Some(value.as_bytes().to_vec())
}

fn people(failure: Option<Error>) -> Statement {
    Statement::new(
        columns(),
        vec![
            vec![int4(1), text("Ann")],
            vec![int4(2), None],
            vec![int4(3), text("Cy")],
        ],
        failure,
    )
    .unwrap()
}

fn lost() -> Error {
    Error::DatabaseError(DatabaseErrorKind::Unknown, "connection lost".to_string())
}

fn mismatch() -> Error {
    Error::DatabaseError(
        DatabaseErrorKind::UnableToSendCommand,
        "the output buffers do not match the columns of the statement".to_string(),
    )
}

fn person(mut row: MysqlRow) -> QueryResult<(i32, Option<String>)> {
    <(i32, Option<String>) as FromSqlRow<Typed<(Int, Typed<Nullable<Text>>)>, Mysql>>::build_from_row(
        &mut row,
    )
    .map_err(Error::DeserializationError)
}

fn strict_person(mut row: MysqlRow) -> QueryResult<(i32, String)> {
    <(i32, String) as FromSqlRow<Typed<(Int, Txt)>, Mysql>>::build_from_row(&mut row)
        .map_err(Error::DeserializationError)
}

#[test]
fn a_statement_must_have_one_cell_per_column() {
    assert!(Statement::new(columns(), vec![vec![int4(1)]], None).is_none());
    assert!(Statement::new(columns(), vec![vec![None, None, None]], None).is_none());
    assert!(Statement::new(columns(), vec![], None).is_some());
    assert!(Statement::new(StatementMetadata::new(vec![]), vec![vec![], vec![]], None).is_some());
}

#[test]
fn map_applies_the_function_to_each_row_in_turn() {
    let mut stmt = people(None);
    let rows = StatementIterator::new(&mut stmt, None).unwrap();
    assert_eq!(
        Ok(vec![
            (1, Some("Ann".to_string())),
            (2, None),
            (3, Some("Cy".to_string())),
        ]),
        rows.map(person)
    );
}

#[test]
fn map_over_no_rows_is_empty() {
    let mut stmt = Statement::new(columns(), vec![], None).unwrap();
    let rows = StatementIterator::new(&mut stmt, None).unwrap();
    assert_eq!(Ok(vec![]), rows.map(person));
}

#[test]
fn the_first_error_of_the_function_ends_the_iteration() {
    let mut stmt = people(None);
    let rows = StatementIterator::new(&mut stmt, None).unwrap();
    let calls = Cell::new(0);
    let result = rows.map(|row| {
        calls.set(calls.get() + 1);
        strict_person(row)
    });
    assert_eq!(
        Err(Error::DeserializationError(DeserializeError::UnexpectedNull)),
        result
    );
    assert_eq!(2, calls.get());
}

#[test]
fn an_error_of_the_driver_is_passed_through() {
    let mut stmt = people(Some(lost()));
    let rows = StatementIterator::new(&mut stmt, None).unwrap();
    let calls = Cell::new(0);
    let result = rows.map(|row| {
        calls.set(calls.get() + 1);
        person(row)
    });
    assert_eq!(Err(lost()), result);
    assert_eq!(3, calls.get());
}

#[test]
fn rows_can_be_fetched_one_at_a_time() {
    let mut stmt = people(Some(lost()));
    let mut rows = StatementIterator::new(&mut stmt, None).unwrap();
    {
        let mut row = rows.next().unwrap().unwrap();
        assert_eq!(2, row.len());
        assert_eq!((2, Some(2)), row.size_hint());
        let id = row.next().unwrap();
        assert_eq!(Some("id"), id.column_name());
        assert!(!id.is_null());
        let value = id.value().unwrap();
        assert_eq!(&[1u8, 0, 0, 0][..], value.as_bytes());
        assert_eq!(MysqlType::Long, value.value_type());
        assert_eq!(1, row.len());
        let mut copy = row.duplicate();
        let name = row.next().unwrap();
        assert_eq!(Some("name"), name.column_name());
        assert_eq!(b"Ann", name.value().unwrap().as_bytes());
        assert!(row.next().is_none());
        assert_eq!(0, row.len());
        assert_eq!(1, copy.len());
        assert_eq!(Some("name"), copy.next().unwrap().column_name());
    }
    {
        let mut row = rows.next().unwrap().unwrap();
        row.next();
        let name = row.next().unwrap();
        assert!(name.is_null());
        assert!(name.value().is_none());
    }
    assert!(rows.next().unwrap().is_ok());
    assert_eq!(Some(lost()), rows.next().unwrap().err());
    assert!(rows.next().is_none());
    assert!(rows.next().is_none());
}

#[test]
fn buffers_can_be_bound_under_declared_types() {
    let mut stmt = people(None);
    let rows =
        StatementIterator::new(&mut stmt, Some(vec![MysqlType::Long, MysqlType::Blob])).unwrap();
    let result = rows.map(|mut row| {
        row.next();
        Ok(row.next().unwrap().value().map(|v| v.value_type()))
    });
    assert_eq!(
        Ok(vec![Some(MysqlType::Blob), None, Some(MysqlType::Blob)]),
        result
    );
}

#[test]
fn declared_types_must_be_one_per_column() {
    let mut stmt = people(None);
    assert_eq!(
        Some(mismatch()),
        StatementIterator::new(&mut stmt, Some(vec![MysqlType::Long])).err()
    );
    assert_eq!(
        Some(mismatch()),
        StatementIterator::new(&mut stmt, Some(vec![])).err()
    );
    assert_eq!(
        Some(mismatch()),
        StatementIterator::new(
            &mut stmt,
            Some(vec![MysqlType::Long, MysqlType::String, MysqlType::Tiny])
        )
        .err()
    );
    // the statement is untouched by the refusals
    let rows = StatementIterator::new(&mut stmt, None).unwrap();
    assert_eq!(3, rows.map(person).unwrap().len());
}

#[test]
fn a_statement_delivers_into_the_buffers_it_is_given() {
    let mut stmt = people(None);
    let metadata = stmt.metadata().unwrap();
    assert_eq!(2, metadata.fields().len());
    assert_eq!(Some("name"), metadata.fields()[1].field_name());
    assert_eq!(MysqlType::String, metadata.fields()[1].field_type());

    let mut binds = Binds::from_result_metadata(&metadata);
    assert_eq!(2, binds.len());
    assert_eq!(MysqlType::Long, binds.get(0).bind_type());
    assert!(!binds.get(0).is_null());
    assert_eq!(b"", binds.get(0).value().unwrap().as_bytes());

    assert_eq!(Ok(()), stmt.execute_statement(&mut binds));
    assert_eq!(Ok(Some(())), stmt.populate_row_buffers(&mut binds));
    assert_eq!(&[1u8, 0, 0, 0][..], binds.get(0).value().unwrap().as_bytes());
    assert_eq!(b"Ann", binds.get(1).value().unwrap().as_bytes());
    assert_eq!(Ok(Some(())), stmt.populate_row_buffers(&mut binds));
    assert_eq!(&[2u8, 0, 0, 0][..], binds.get(0).value().unwrap().as_bytes());
    assert!(binds.get(1).is_null());
    assert!(binds.get(1).value().is_none());
    assert_eq!(MysqlType::String, binds.get(1).bind_type());
    assert_eq!(Ok(Some(())), stmt.populate_row_buffers(&mut binds));
    assert_eq!(b"Cy", binds.get(1).value().unwrap().as_bytes());
    assert_eq!(Ok(None), stmt.populate_row_buffers(&mut binds));
    assert_eq!(b"Cy", binds.get(1).value().unwrap().as_bytes());
}

#[test]
fn a_buffer_is_overwritten_by_what_is_stored() {
    let mut bind = BindData::for_output(MysqlType::Blob);
    bind.store(Some(&[1, 2, 3]));
    assert_eq!(&[1u8, 2, 3][..], bind.value().unwrap().as_bytes());
    bind.store(None);
    assert!(bind.is_null());
    bind.store(Some(&[]));
    assert!(!bind.is_null());
    assert_eq!(b"", bind.value().unwrap().as_bytes());
    assert_eq!(MysqlType::Blob, bind.bind_type());

    let mut binds = Binds::from_output_types(vec![MysqlType::Tiny, MysqlType::Long]);
    binds.store(1, Some(&[9]));
    assert_eq!(b"", binds.get(0).value().unwrap().as_bytes());
    assert_eq!(&[9u8][..], binds.get(1).value().unwrap().as_bytes());
    assert_eq!(MysqlType::Tiny, binds.get(0).bind_type());
    assert_eq!(MysqlType::Long, binds.get(1).bind_type());
}

#[test]
fn metadata_can_be_duplicated() {
    let metadata = columns();
    let copy = metadata.duplicate();
    assert_eq!(2, copy.fields().len());
    assert_eq!(Some("id"), copy.fields()[0].field_name());
    assert_eq!(MysqlType::Long, copy.fields()[0].field_type());
    let unnamed = MysqlFieldMetadata::new(None, MysqlType::Tiny).duplicate();
    assert_eq!(None, unnamed.field_name());
}

#[test]
fn a_typed_row_fixes_the_types_of_its_columns() {
    assert_eq!(
        Some(vec![MysqlType::Long]),
        <Typed<Integer> as IsCompatibleType<Mysql>>::mysql_row_metadata(&())
    );
    assert_eq!(
        Some(vec![MysqlType::Long, MysqlType::String, MysqlType::Tiny]),
        <Typed<(Int, Typed<Nullable<Text>>, Typed<Bool>)> as IsCompatibleType<Mysql>>::mysql_row_metadata(&())
    );
    assert_eq!(
        Some(vec![MysqlType::Long, MysqlType::Long, MysqlType::String]),
        <Typed<(Int, Typed<(Int, Txt)>)> as IsCompatibleType<Mysql>>::mysql_row_metadata(&())
    );
    assert_eq!(
        None,
        <Untyped as IsCompatibleType<Mysql>>::mysql_row_metadata(&())
    );
}
