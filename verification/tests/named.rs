use diesel_rows::deserialize::{Cause, DeserializeError};
use diesel_rows::pg::backend::Pg;
use diesel_rows::pg::connection::result::PgResult;
use diesel_rows::pg::connection::row::PgRow;
use diesel_rows::queryable_by_name::{
    check_value, find_columns, find_columns_checked, named_value, position,
};
use diesel_rows::pg::connection::row::PgField;
use diesel_rows::row::{Field, Row};
use diesel_rows::sql_types::{Integer, Nullable, Text};

#[derive(Debug, PartialEq)]
struct User {
    id: i32,
    name: String,
}

fn user_from(row: &mut PgRow) -> Result<User, DeserializeError> {
    let found = find_columns::<Pg, PgRow>(row, &["id", "name"]);
    Ok(User {
        id: named_value::<Integer, Pg, i32, _>(&found[0], "id")?,
        name: named_value::<Text, Pg, String, _>(&found[1], "name")?,
    })
}

fn one_row(columns: Vec<(Option<&str>, Option<Vec<u8>>)>) -> PgResult {
    let names = columns.iter().map(|c| c.0.map(|n| n.to_string())).collect();
    let types = vec![0; columns.len()];
    let cells = columns.into_iter().map(|c| c.1).collect();
    PgResult::new(names, types, vec![cells]).unwrap()
}

fn int4(value: i32) -> Option<Vec<u8>> {
    Some(value.to_be_bytes().to_vec())
}

fn text(value: &str) -> Option<Vec<u8>> {
    Some(value.as_bytes().to_vec())
}

#[test]
fn columns_are_bound_by_name_whatever_their_order() {
    let result = one_row(vec![
        (Some("extra"), text("x")),
        (Some("name"), text("Ann")),
        (Some("id"), int4(7)),
    ]);
    let mut row = PgRow::new(&result, 0);
    assert_eq!(
        Ok(User { id: 7, name: "Ann".to_string() }),
        user_from(&mut row)
    );
}

#[test]
fn a_missing_column_is_named() {
    let result = one_row(vec![(Some("extra"), text("x")), (Some("name"), text("Ann"))]);
    let mut row = PgRow::new(&result, 0);
    assert_eq!(
        Err(DeserializeError::MissingColumn("id".to_string())),
        user_from(&mut row)
    );
    assert_eq!(0, row.len());

    let result = one_row(vec![(Some("id"), int4(7))]);
    let mut row = PgRow::new(&result, 0);
    assert_eq!(
        Err(DeserializeError::MissingColumn("name".to_string())),
        user_from(&mut row)
    );

    let result = one_row(vec![]);
    let mut row = PgRow::new(&result, 0);
    assert_eq!(
        Err(DeserializeError::MissingColumn("id".to_string())),
        user_from(&mut row)
    );
}

#[test]
fn the_walk_stops_once_every_target_is_filled() {
    let result = one_row(vec![
        (Some("id"), int4(1)),
        (Some("skip"), None),
        (Some("name"), text("Ann")),
        (Some("id"), int4(2)),
        (Some("more"), None),
    ]);
    let mut row = PgRow::new(&result, 0);
    assert_eq!(
        Ok(User { id: 1, name: "Ann".to_string() }),
        user_from(&mut row)
    );
    assert_eq!(2, row.len());
}

#[test]
fn the_last_column_of_a_name_before_the_end_stays() {
    let result = one_row(vec![
        (Some("id"), int4(1)),
        (Some("id"), int4(2)),
        (Some("name"), text("Ann")),
    ]);
    let mut row = PgRow::new(&result, 0);
    assert_eq!(
        Ok(User { id: 2, name: "Ann".to_string() }),
        user_from(&mut row)
    );
    assert_eq!(0, row.len());
}

#[test]
fn columns_without_a_name_are_passed_over() {
    let result = one_row(vec![
        (None, int4(5)),
        (Some("name"), text("Ann")),
        (None, None),
        (Some("id"), int4(7)),
    ]);
    let mut row = PgRow::new(&result, 0);
    assert_eq!(
        Ok(User { id: 7, name: "Ann".to_string() }),
        user_from(&mut row)
    );
}

#[test]
fn names_match_exactly() {
    let result = one_row(vec![
        (Some("ID"), int4(5)),
        (Some("id "), int4(5)),
        (Some("i"), int4(5)),
        (Some(""), int4(5)),
        (Some("name"), text("Ann")),
    ]);
    let mut row = PgRow::new(&result, 0);
    assert_eq!(
        Err(DeserializeError::MissingColumn("id".to_string())),
        user_from(&mut row)
    );
}

#[test]
fn a_found_column_is_decoded_as_the_field_asks() {
    let result = one_row(vec![(Some("id"), None), (Some("name"), Some(vec![0xff]))]);
    let mut row = PgRow::new(&result, 0);
    let found = find_columns::<Pg, PgRow>(&mut row, &["id", "name"]);
    assert_eq!(
        Err(DeserializeError::UnexpectedNull),
        named_value::<Integer, Pg, i32, _>(&found[0], "id")
    );
    assert_eq!(
        Ok(None),
        named_value::<Nullable<Integer>, Pg, Option<i32>, _>(&found[0], "id")
    );
    assert_eq!(
        Err(DeserializeError::Malformed(Cause::InvalidUtf8)),
        named_value::<Text, Pg, String, _>(&found[1], "name")
    );
}

#[test]
fn with_no_targets_nothing_is_looked_at() {
    let result = one_row(vec![(Some("id"), int4(1))]);
    let mut row = PgRow::new(&result, 0);
    let found = find_columns::<Pg, PgRow>(&mut row, &[]);
    assert!(found.is_empty());
    assert_eq!(1, row.len());
}

#[test]
fn a_repeated_target_is_filled_once() {
    let result = one_row(vec![(Some("id"), int4(1)), (Some("id"), int4(2))]);
    let mut row = PgRow::new(&result, 0);
    let found = find_columns::<Pg, PgRow>(&mut row, &["id", "id"]);
    assert_eq!(2, found.len());
    assert_eq!(
        Some(vec![0u8, 0, 0, 2]),
        found[0].as_ref().and_then(|f| f.value()).map(|v| v.as_bytes().to_vec())
    );
    assert!(found[1].is_none());
    assert_eq!(0, row.len());
}

#[test]
fn position_is_the_first_target_of_the_name() {
    assert_eq!(Some(0), position(&["id", "name", "id"], "id"));
    assert_eq!(Some(1), position(&["id", "name", "id"], "name"));
    assert_eq!(None, position(&["id", "name"], "nam"));
    assert_eq!(None, position(&[], "id"));
    assert_eq!(Some(0), position(&[""], ""));
}

#[test]
fn errors_say_what_went_wrong() {
    assert_eq!(
        "Column `id` was not present in query",
        DeserializeError::MissingColumn("id".to_string()).message()
    );
    assert_eq!(
        "Column `` was not present in query",
        DeserializeError::MissingColumn(String::new()).message()
    );
    assert_eq!(
        "Unexpected null for non-null column",
        DeserializeError::UnexpectedNull.message()
    );
    assert_eq!(
        "Unexpected end of row",
        DeserializeError::UnexpectedEndOfRow.message()
    );
    assert_eq!(
        "Received a value of the wrong length",
        DeserializeError::Malformed(Cause::WrongLength).message()
    );
    assert_eq!(
        "Received text that is not valid UTF-8",
        DeserializeError::Malformed(Cause::InvalidUtf8).message()
    );
    assert_eq!(
        "Received a value that the type does not have",
        Cause::UnrecognizedValue.message()
    );
    assert_eq!("Received a value of another type", Cause::WrongType.message());
}

fn checked_user_from(row: &mut PgRow) -> Result<User, DeserializeError> {
    let found = find_columns_checked::<Pg, PgRow, _>(
        row,
        &["id", "name"],
        |target: usize, field: &PgField| match target {
            0 => check_value::<Integer, Pg, i32, _>(field),
            1 => check_value::<Text, Pg, String, _>(field),
            _ => Ok(()),
        },
    )?;
    Ok(User {
        id: named_value::<Integer, Pg, i32, _>(&found[0], "id")?,
        name: named_value::<Text, Pg, String, _>(&found[1], "name")?,
    })
}

#[test]
fn a_checked_walk_binds_columns_by_name() {
    let result = one_row(vec![
        (Some("extra"), text("x")),
        (Some("name"), text("Ann")),
        (Some("id"), int4(7)),
        (Some("more"), None),
    ]);
    let mut row = PgRow::new(&result, 0);
    assert_eq!(
        Ok(User { id: 7, name: "Ann".to_string() }),
        checked_user_from(&mut row)
    );
    assert_eq!(1, row.len());

    let result = one_row(vec![(Some("name"), text("Ann"))]);
    let mut row = PgRow::new(&result, 0);
    assert_eq!(
        Err(DeserializeError::MissingColumn("id".to_string())),
        checked_user_from(&mut row)
    );
}

#[test]
fn a_checked_walk_reports_the_first_bad_column_in_column_order() {
    // both columns are bad; the one that comes first in the row is reported
    let result = one_row(vec![
        (Some("name"), Some(vec![0xff])),
        (Some("id"), Some(vec![1])),
        (Some("more"), None),
    ]);
    let mut row = PgRow::new(&result, 0);
    assert_eq!(
        Err(DeserializeError::Malformed(Cause::InvalidUtf8)),
        checked_user_from(&mut row)
    );
    assert_eq!(2, row.len());

    let result = one_row(vec![
        (Some("id"), Some(vec![1])),
        (Some("name"), Some(vec![0xff])),
    ]);
    let mut row = PgRow::new(&result, 0);
    assert_eq!(
        Err(DeserializeError::Malformed(Cause::WrongLength)),
        checked_user_from(&mut row)
    );
    assert_eq!(1, row.len());

    // without the check the fields are read in the order of the record
    let result = one_row(vec![
        (Some("name"), Some(vec![0xff])),
        (Some("id"), Some(vec![1])),
    ]);
    let mut row = PgRow::new(&result, 0);
    assert_eq!(
        Err(DeserializeError::Malformed(Cause::WrongLength)),
        user_from(&mut row)
    );
}

#[test]
fn a_checked_walk_checks_a_column_that_a_later_one_replaces() {
    let result = one_row(vec![
        (Some("id"), None),
        (Some("id"), int4(2)),
        (Some("name"), text("Ann")),
    ]);
    let mut row = PgRow::new(&result, 0);
    assert_eq!(
        Err(DeserializeError::UnexpectedNull),
        checked_user_from(&mut row)
    );
    assert_eq!(2, row.len());
    let mut row = PgRow::new(&result, 0);
    assert_eq!(
        Ok(User { id: 2, name: "Ann".to_string() }),
        user_from(&mut row)
    );
}

#[test]
fn a_checked_walk_passes_over_columns_that_fill_no_target() {
    let result = one_row(vec![
        (Some("other"), Some(vec![0xff])),
        (None, Some(vec![0xff])),
        (Some("id"), int4(1)),
        (Some("name"), text("Ann")),
    ]);
    let mut row = PgRow::new(&result, 0);
    assert_eq!(
        Ok(User { id: 1, name: "Ann".to_string() }),
        checked_user_from(&mut row)
    );
}

#[test]
fn check_value_is_the_decoding_without_the_value() {
    let result = one_row(vec![(None, int4(1)), (None, None), (None, Some(vec![1]))]);
    let mut row = PgRow::new(&result, 0);
    let good = row.next().unwrap();
    let null = row.next().unwrap();
    let bad = row.next().unwrap();
    assert_eq!(Ok(()), check_value::<Integer, Pg, i32, _>(&good));
    assert_eq!(
        Err(DeserializeError::UnexpectedNull),
        check_value::<Integer, Pg, i32, _>(&null)
    );
    assert_eq!(Ok(()), check_value::<Nullable<Integer>, Pg, Option<i32>, _>(&null));
    assert_eq!(
        Err(DeserializeError::Malformed(Cause::WrongLength)),
        check_value::<Integer, Pg, i32, _>(&bad)
    );
}
