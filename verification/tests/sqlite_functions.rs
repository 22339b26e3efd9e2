use diesel_rows::deserialize::{Cause, DeserializeError, FromSqlRow, StaticallySizedRow};
use diesel_rows::result::{DatabaseErrorKind, Error};
use diesel_rows::row::{Field, Row};
use diesel_rows::serialize::{IsNull, Output, ToSql};
use diesel_rows::sql_types::{Integer, Nullable, Text, Typed};
use diesel_rows::sqlite::backend::{RawArgument, Sqlite, SqliteType, SqliteValue};
use diesel_rows::sqlite::connection::functions::{
    build_sql_function_args, process_sql_function_result, register, register_aggregate,
    FunctionRow, SqliteAggregateFunction, MAX_PARAMETERS,
};
use diesel_rows::sqlite::connection::serialized_value::SerializedValue;

type Int = Typed<Integer>;
type T3 = (i32, i32, i32);
type S3 = (Int, Int, Int);
type T4 = (i32, i32, i32, i32);
type S4 = (Int, Int, Int, Int);
type T15 = (T4, T4, T4, T3);
type S15 = (Typed<S4>, Typed<S4>, Typed<S4>, Typed<S3>);
type T16 = (T4, T4, T4, T4);
type S16 = (Typed<S4>, Typed<S4>, Typed<S4>, Typed<S4>);
type T63 = (T16, T16, T16, T15);
type S63 = (Typed<S16>, Typed<S16>, Typed<S16>, Typed<S15>);
type T64 = (T16, T16, T16, T16);
type S64 = (Typed<S16>, Typed<S16>, Typed<S16>, Typed<S16>);
type T127 = (T64, T63);
type S127 = (Typed<S64>, Typed<S63>);
type T128 = (T64, T64);
type S128 = (Typed<S64>, Typed<S64>);

fn too_many() -> Error {
    Error::DatabaseError(
        DatabaseErrorKind::UnableToRegister,
        "SQLite functions cannot take more than 127 parameters".to_string(),
    )
}

struct Count(i32);

impl SqliteAggregateFunction<T128> for Count {
    type Output = i32;

    fn step(&mut self, _: T128) {
        self.0 += 1;
    }

    fn finalize(aggregator: Option<Self>) -> i32 {
        aggregator.map(|c| c.0).unwrap_or(0)
    }
}

impl SqliteAggregateFunction<T127> for Count {
    type Output = i32;

    fn step(&mut self, _: T127) {
        self.0 += 1;
    }

    fn finalize(aggregator: Option<Self>) -> i32 {
        aggregator.map(|c| c.0).unwrap_or(0)
    }
}

#[test]
fn the_limit_is_127_parameters() {
    assert_eq!(127, MAX_PARAMETERS);
    assert_eq!(127, <T127 as StaticallySizedRow<Typed<S127>, Sqlite>>::FIELD_COUNT);
    assert_eq!(128, <T128 as StaticallySizedRow<Typed<S128>, Sqlite>>::FIELD_COUNT);
}

#[test]
fn a_function_of_128_parameters_is_refused() {
    let result = register::<S128, Integer, T128, i32, _>("wide", true, |_: T128| 0);
    assert_eq!(Some(too_many()), result.err());
}

#[test]
fn a_function_of_127_parameters_is_registered() {
    let result = register::<S127, Integer, T127, i32, _>("wide", false, |_: T127| 0);
    let function = result.ok().unwrap();
    assert_eq!("wide", function.name());
    assert_eq!(127, function.arity());
    assert!(!function.deterministic());
}

#[test]
fn an_aggregate_of_128_parameters_is_refused() {
    let result = register_aggregate::<S128, Integer, T128, i32, Count>("count_wide");
    assert_eq!(Some(too_many()), result.err());
}

#[test]
fn an_aggregate_of_127_parameters_is_registered() {
    let result = register_aggregate::<S127, Integer, T127, i32, Count>("count_wide");
    let aggregate = result.ok().unwrap();
    assert_eq!("count_wide", aggregate.name());
    assert_eq!(127, aggregate.arity());
    assert_eq!(2, <Count as SqliteAggregateFunction<T127>>::finalize(Some(Count(2))));
}

#[test]
fn a_registered_function_is_called_with_its_arguments() {
    let add = register::<(Int, Int), Integer, (i32, i32), i32, _>(
        "add",
        true,
        |(a, b): (i32, i32)| a + b,
    )
    .ok()
    .unwrap();
    assert_eq!("add", add.name());
    assert_eq!(2, add.arity());
    assert!(add.deterministic());

    let args = [RawArgument::Integer(40), RawArgument::Integer(2)];
    assert_eq!(
        Ok(SerializedValue { ty: SqliteType::Integer, data: Some(vec![0, 0, 0, 42]) }),
        add.call(&args)
    );
}

#[test]
fn arguments_that_cannot_be_built_are_an_error() {
    let add = register::<(Int, Int), Integer, (i32, i32), i32, _>(
        "add",
        true,
        |(a, b): (i32, i32)| a + b,
    )
    .ok()
    .unwrap();
    assert_eq!(
        Err(Error::DeserializationError(DeserializeError::UnexpectedNull)),
        add.call(&[RawArgument::Integer(40), RawArgument::Null])
    );
    assert_eq!(
        Err(Error::DeserializationError(DeserializeError::UnexpectedEndOfRow)),
        add.call(&[RawArgument::Integer(40)])
    );
    assert_eq!(
        Err(Error::DeserializationError(DeserializeError::Malformed(Cause::WrongType))),
        add.call(&[RawArgument::Text("40"), RawArgument::Integer(2)])
    );
}

#[test]
fn a_function_may_return_null() {
    let first = register::<(Typed<Nullable<Text>>,), Nullable<Text>, (Option<String>,), Option<String>, _>(
        "echo",
        true,
        |(text,): (Option<String>,)| text,
    )
    .ok()
    .unwrap();
    assert_eq!(
        Ok(SerializedValue { ty: SqliteType::Text, data: None }),
        first.call(&[RawArgument::Null])
    );
    assert_eq!(
        Ok(SerializedValue { ty: SqliteType::Text, data: Some(b"Ann".to_vec()) }),
        first.call(&[RawArgument::Text("Ann")])
    );
}

#[test]
fn function_arguments_are_built_from_the_handles() {
    let args = [RawArgument::Integer(1), RawArgument::Text("two"), RawArgument::Null];
    assert_eq!(
        Ok((1, "two".to_string(), None)),
        build_sql_function_args::<(Int, Typed<Text>, Typed<Nullable<Integer>>), (i32, String, Option<i32>)>(
            &args
        )
    );
    assert_eq!(
        Err(Error::DeserializationError(DeserializeError::UnexpectedNull)),
        build_sql_function_args::<(Int, Typed<Text>, Int), (i32, String, i32)>(&args)
    );
}

#[test]
fn a_result_is_serialized_with_its_storage_class() {
    assert_eq!(
        Ok(SerializedValue { ty: SqliteType::Integer, data: Some(vec![0xff, 0xff, 0xff, 0xfe]) }),
        process_sql_function_result::<Integer, i32>(-2)
    );
    assert_eq!(
        Ok(SerializedValue { ty: SqliteType::Text, data: Some(vec![]) }),
        process_sql_function_result::<Text, String>(String::new())
    );
    assert_eq!(
        Ok(SerializedValue { ty: SqliteType::Integer, data: None }),
        process_sql_function_result::<Nullable<Integer>, Option<i32>>(None)
    );
    assert_eq!(
        Ok(SerializedValue { ty: SqliteType::Integer, data: Some(vec![0, 0, 0, 5]) }),
        process_sql_function_result::<Nullable<Integer>, Option<i32>>(Some(5))
    );
}

#[test]
fn a_function_row_takes_one_handle_off_the_front_each_time() {
    let args = [RawArgument::Integer(1), RawArgument::Null, RawArgument::Text("x")];
    let mut row = FunctionRow::new(&args);
    assert_eq!(3, row.column_count());
    assert_eq!(3, row.len());
    assert_eq!((3, Some(3)), row.size_hint());

    let first = row.next().unwrap();
    assert_eq!(None, first.column_name());
    assert!(!first.is_null());
    assert!(matches!(first.value(), Some(SqliteValue::Integer(1))));
    assert_eq!(2, row.len());
    assert_eq!(3, row.column_count());

    let mut copy = row.duplicate();
    let second = row.next().unwrap();
    assert_eq!(None, second.column_name());
    assert!(second.is_null());
    assert!(second.value().is_none());

    let third = row.next().unwrap();
    assert!(matches!(third.value(), Some(SqliteValue::Text("x"))));
    assert!(row.next().is_none());
    assert_eq!(0, row.len());
    assert_eq!((0, Some(0)), row.size_hint());

    assert_eq!(2, copy.len());
    assert!(copy.next().unwrap().is_null());
}

#[test]
fn a_tuple_is_built_from_function_arguments() {
    let args = [RawArgument::Integer(1), RawArgument::Integer(2), RawArgument::Integer(3)];
    let mut row = FunctionRow::new(&args);
    assert_eq!(
        Ok((1, 2)),
        <(i32, i32) as FromSqlRow<Typed<(Int, Int)>, Sqlite>>::build_from_row(&mut row)
    );
    assert_eq!(1, row.len());
}

#[test]
fn sqlite_integers_are_written_most_significant_byte_first() {
    let mut out = Output::test();
    assert_eq!(Ok(IsNull::No), ToSql::<Integer, Sqlite>::to_sql(&258, &mut out));
    assert_eq!(&[0u8, 0, 1, 2][..], out.as_bytes());
}

#[test]
fn the_registered_arity_is_the_number_of_columns_of_the_arguments() {
    let one = register::<(Int,), Integer, (i32,), i32, _>("f1", true, |_: (i32,)| 0)
        .ok()
        .unwrap();
    assert_eq!(1, one.arity());
    assert_eq!(Ok(0), one.call(&[RawArgument::Integer(1)]).map(|_| 0));

    let three = register::<S3, Integer, T3, i32, _>("f3", true, |(a, b, c): T3| a + b + c)
        .ok()
        .unwrap();
    assert_eq!(3, three.arity());
    assert_eq!(
        Ok(SerializedValue { ty: SqliteType::Integer, data: Some(vec![0, 0, 0, 6]) }),
        three.call(&[
            RawArgument::Integer(1),
            RawArgument::Integer(2),
            RawArgument::Integer(3)
        ])
    );

    type T7 = (i32, i32, i32, i32, i32, i32, i32);
    type S7 = (Int, Int, Int, Int, Int, Int, Int);
    let seven = register::<S7, Integer, T7, i32, _>("f7", true, |t: T7| t.6).ok().unwrap();
    assert_eq!(7, seven.arity());
    let args: Vec<RawArgument> = (1..=7).map(RawArgument::Integer).collect();
    assert_eq!(
        Ok(SerializedValue { ty: SqliteType::Integer, data: Some(vec![0, 0, 0, 7]) }),
        seven.call(&args)
    );

    type T12 = (i32, i32, i32, i32, i32, i32, i32, i32, i32, i32, i32, i32);
    type S12 = (Int, Int, Int, Int, Int, Int, Int, Int, Int, Int, Int, Int);
    let twelve = register::<S12, Integer, T12, i32, _>("f12", true, |t: T12| t.11)
        .ok()
        .unwrap();
    assert_eq!(12, twelve.arity());
    let args: Vec<RawArgument> = (1..=12).map(RawArgument::Integer).collect();
    assert_eq!(
        Ok(SerializedValue { ty: SqliteType::Integer, data: Some(vec![0, 0, 0, 12]) }),
        twelve.call(&args)
    );

    let wide = register::<S127, Integer, T127, i32, _>("f127", true, |t: T127| ((t.0).0).0 .0)
        .ok()
        .unwrap();
    assert_eq!(127, wide.arity());
    let args: Vec<RawArgument> = (1..=127).map(RawArgument::Integer).collect();
    assert_eq!(
        Ok(SerializedValue { ty: SqliteType::Integer, data: Some(vec![0, 0, 0, 1]) }),
        wide.call(&args)
    );
    assert_eq!(
        Err(Error::DeserializationError(DeserializeError::UnexpectedEndOfRow)),
        wide.call(&args[..126])
    );
}
