use diesel_rows::deserialize::{Cause, DeserializeError, FromSql};
use diesel_rows::mysql::backend::{Mysql, MysqlType, MysqlValue};
use diesel_rows::pg::backend::{Pg, PgValue};
use diesel_rows::serialize::{write_value, IsNull, Output, SerializeError, ToSql};
use diesel_rows::sql_types::{BigInt, Bool, Integer, Nullable, Text};
use diesel_rows::backend::HasSqlType;
use diesel_rows::pg::backend::PgTypeMetadata;
use diesel_rows::sqlite::backend::{RawArgument, Sqlite, SqliteType, SqliteValue};
use diesel_rows::sqlite::connection::functions::process_sql_function_result;
use diesel_rows::sqlite::connection::serialized_value::SerializedValue;

fn pg_bytes_of_i32(value: i32) -> Vec<u8> {
    let mut out = Output::test();
    assert_eq!(
        Ok(IsNull::No),
        ToSql::<Integer, Pg>::to_sql(&value, &mut out)
    );
    out.into_inner()
}

#[test]
fn pg_integer_is_written_most_significant_byte_first() {
    assert_eq!(vec![1u8, 2, 3, 4], pg_bytes_of_i32(0x0102_0304));
    assert_eq!(vec![0u8, 0, 0, 0], pg_bytes_of_i32(0));
    assert_eq!(vec![0xffu8, 0xff, 0xff, 0xff], pg_bytes_of_i32(-1));
    assert_eq!(vec![0x80u8, 0, 0, 0], pg_bytes_of_i32(i32::MIN));
    assert_eq!(vec![0x7fu8, 0xff, 0xff, 0xff], pg_bytes_of_i32(i32::MAX));
}

#[test]
fn pg_integer_round_trips() {
    for value in [0, 1, -1, 7, 255, 256, -256, 65_536, i32::MIN, i32::MAX, 0x0102_0304] {
        let bytes = pg_bytes_of_i32(value);
        let raw = PgValue::new(&bytes, 23);
        assert_eq!(Ok(value), <i32 as FromSql<Integer, Pg>>::from_sql(raw));
    }
}

#[test]
fn pg_integer_reads_exact_bytes() {
    let raw = PgValue::new(&[0, 0, 1, 0], 23);
    assert_eq!(Ok(256), <i32 as FromSql<Integer, Pg>>::from_sql(raw));
    let raw = PgValue::new(&[0xff, 0xff, 0xff, 0xfe], 23);
    assert_eq!(Ok(-2), <i32 as FromSql<Integer, Pg>>::from_sql(raw));
}

#[test]
fn pg_integer_of_wrong_length_is_malformed() {
    for bytes in [&[][..], &[1][..], &[1, 2, 3][..], &[1, 2, 3, 4, 5][..]] {
        let raw = PgValue::new(bytes, 23);
        assert_eq!(
            Err(DeserializeError::Malformed(Cause::WrongLength)),
            <i32 as FromSql<Integer, Pg>>::from_sql(raw)
        );
    }
}

#[test]
fn pg_bool_round_trips() {
    for value in [true, false] {
        let mut out = Output::test();
        assert_eq!(Ok(IsNull::No), ToSql::<Bool, Pg>::to_sql(&value, &mut out));
        assert_eq!(&[if value { 1u8 } else { 0u8 }][..], out.as_bytes());
        let bytes = out.into_inner();
        let raw = PgValue::new(&bytes, 16);
        assert_eq!(Ok(value), <bool as FromSql<Bool, Pg>>::from_sql(raw));
    }
}

#[test]
fn pg_bool_reads_any_nonzero_byte_as_true() {
    assert_eq!(
        Ok(true),
        <bool as FromSql<Bool, Pg>>::from_sql(PgValue::new(&[7], 16))
    );
    assert_eq!(
        Err(DeserializeError::Malformed(Cause::WrongLength)),
        <bool as FromSql<Bool, Pg>>::from_sql(PgValue::new(&[], 16))
    );
    assert_eq!(
        Err(DeserializeError::Malformed(Cause::WrongLength)),
        <bool as FromSql<Bool, Pg>>::from_sql(PgValue::new(&[1, 0], 16))
    );
}

#[test]
fn pg_text_round_trips() {
    for value in ["", "Sean", "naïve", "日本語", "a\u{10348}b"] {
        let mut out = Output::test();
        assert_eq!(
            Ok(IsNull::No),
            ToSql::<Text, Pg>::to_sql(&value.to_string(), &mut out)
        );
        assert_eq!(value.as_bytes(), out.as_bytes());
        let bytes = out.into_inner();
        let raw = PgValue::new(&bytes, 25);
        assert_eq!(
            Ok(value.to_string()),
            <String as FromSql<Text, Pg>>::from_sql(raw)
        );
    }
}

#[test]
fn pg_text_that_is_not_utf8_is_malformed() {
    for bytes in [&[0xff][..], &[b'a', 0x80][..], &[0xc3][..], &[0xed, 0xa0, 0x80][..]] {
        let raw = PgValue::new(bytes, 25);
        assert_eq!(
            Err(DeserializeError::Malformed(Cause::InvalidUtf8)),
            <String as FromSql<Text, Pg>>::from_sql(raw)
        );
    }
}

#[test]
fn text_decoding_does_not_hand_back_what_it_was_given() {
    let raw = PgValue::new(&[0xe2, 0x82, 0xac], 25);
    let text = <String as FromSql<Text, Pg>>::from_sql(raw).unwrap();
    assert_eq!("€", text);
    assert_eq!(1, text.chars().count());
}

#[test]
fn null_is_refused_by_types_that_hold_a_value() {
    assert_eq!(
        Err(DeserializeError::UnexpectedNull),
        <i32 as FromSql<Integer, Pg>>::from_nullable_sql(None)
    );
    assert_eq!(
        Err(DeserializeError::UnexpectedNull),
        <bool as FromSql<Bool, Pg>>::from_nullable_sql(None)
    );
    assert_eq!(
        Err(DeserializeError::UnexpectedNull),
        <String as FromSql<Text, Pg>>::from_nullable_sql(None)
    );
    assert_eq!(
        Err(DeserializeError::UnexpectedNull),
        <i32 as FromSql<Integer, Mysql>>::from_nullable_sql(None)
    );
    assert_eq!(
        Err(DeserializeError::UnexpectedNull),
        <i64 as FromSql<BigInt, Sqlite>>::from_nullable_sql(None)
    );
}

#[test]
fn null_is_none_for_an_optional_value() {
    assert_eq!(
        Ok(None),
        <Option<i32> as FromSql<Nullable<Integer>, Pg>>::from_nullable_sql(None)
    );
    assert_eq!(
        Ok(None),
        <Option<String> as FromSql<Nullable<Text>, Pg>>::from_nullable_sql(None)
    );
    assert_eq!(
        Ok(None),
        <Option<i32> as FromSql<Nullable<Integer>, Sqlite>>::from_nullable_sql(None)
    );
}

#[test]
fn a_present_value_is_some_for_an_optional_value() {
    let raw = PgValue::new(&[0, 0, 0, 7], 23);
    assert_eq!(
        Ok(Some(7)),
        <Option<i32> as FromSql<Nullable<Integer>, Pg>>::from_nullable_sql(Some(raw))
    );
    let raw = PgValue::new(&[0, 0, 0, 7], 23);
    assert_eq!(
        Ok(Some(7)),
        <Option<i32> as FromSql<Nullable<Integer>, Pg>>::from_sql(raw)
    );
    let raw = PgValue::new(&[0, 7], 23);
    assert_eq!(
        Err(DeserializeError::Malformed(Cause::WrongLength)),
        <Option<i32> as FromSql<Nullable<Integer>, Pg>>::from_nullable_sql(Some(raw))
    );
}

#[test]
fn a_present_value_goes_to_from_sql() {
    let raw = PgValue::new(&[0, 0, 0, 9], 23);
    assert_eq!(
        Ok(9),
        <i32 as FromSql<Integer, Pg>>::from_nullable_sql(Some(raw))
    );
}

#[test]
fn raw_value_accessors_give_back_the_parts() {
    let raw = PgValue::new(&[1, 2], 42);
    assert_eq!(&[1u8, 2][..], raw.as_bytes());
    assert_eq!(42, raw.get_oid());
    let raw = MysqlValue::new(&[3], MysqlType::Tiny);
    assert_eq!(&[3u8][..], raw.as_bytes());
    assert_eq!(MysqlType::Tiny, raw.value_type());
}

#[test]
fn mysql_integer_is_least_significant_byte_first() {
    let mut out = Output::test();
    assert_eq!(
        Ok(IsNull::No),
        ToSql::<Integer, Mysql>::to_sql(&0x0102_0304, &mut out)
    );
    assert_eq!(&[4u8, 3, 2, 1][..], out.as_bytes());
    for value in [0, 1, -1, i32::MIN, i32::MAX, 258] {
        let mut out = Output::test();
        ToSql::<Integer, Mysql>::to_sql(&value, &mut out).unwrap();
        let bytes = out.into_inner();
        let raw = MysqlValue::new(&bytes, MysqlType::Long);
        assert_eq!(Ok(value), <i32 as FromSql<Integer, Mysql>>::from_sql(raw));
    }
    let raw = MysqlValue::new(&[2, 1, 0, 0], MysqlType::Long);
    assert_eq!(Ok(258), <i32 as FromSql<Integer, Mysql>>::from_sql(raw));
    let raw = MysqlValue::new(&[2, 1, 0], MysqlType::Long);
    assert_eq!(
        Err(DeserializeError::Malformed(Cause::WrongLength)),
        <i32 as FromSql<Integer, Mysql>>::from_sql(raw)
    );
}

#[test]
fn mysql_bool_and_text() {
    let raw = MysqlValue::new(&[0], MysqlType::Tiny);
    assert_eq!(Ok(false), <bool as FromSql<Bool, Mysql>>::from_sql(raw));
    let raw = MysqlValue::new(&[1], MysqlType::Tiny);
    assert_eq!(Ok(true), <bool as FromSql<Bool, Mysql>>::from_sql(raw));
    let raw = MysqlValue::new("Ann".as_bytes(), MysqlType::String);
    assert_eq!(
        Ok("Ann".to_string()),
        <String as FromSql<Text, Mysql>>::from_sql(raw)
    );
    let raw = MysqlValue::new(&[0xc0, 0x80], MysqlType::String);
    assert_eq!(
        Err(DeserializeError::Malformed(Cause::InvalidUtf8)),
        <String as FromSql<Text, Mysql>>::from_sql(raw)
    );
}

#[test]
fn sqlite_values_are_read_by_their_storage_class() {
    assert_eq!(
        Ok(5_000_000_000),
        <i64 as FromSql<BigInt, Sqlite>>::from_sql(SqliteValue::Integer(5_000_000_000))
    );
    assert_eq!(
        Ok(-3),
        <i32 as FromSql<Integer, Sqlite>>::from_sql(SqliteValue::Integer(-3))
    );
    assert_eq!(
        Ok(i32::MAX),
        <i32 as FromSql<Integer, Sqlite>>::from_sql(SqliteValue::Integer(i32::MAX as i64))
    );
    assert_eq!(
        Ok(i32::MIN),
        <i32 as FromSql<Integer, Sqlite>>::from_sql(SqliteValue::Integer(i32::MIN as i64))
    );
    assert_eq!(
        Err(DeserializeError::Malformed(Cause::UnrecognizedValue)),
        <i32 as FromSql<Integer, Sqlite>>::from_sql(SqliteValue::Integer(i32::MAX as i64 + 1))
    );
    assert_eq!(
        Err(DeserializeError::Malformed(Cause::UnrecognizedValue)),
        <i32 as FromSql<Integer, Sqlite>>::from_sql(SqliteValue::Integer(i32::MIN as i64 - 1))
    );
    assert_eq!(
        Err(DeserializeError::Malformed(Cause::WrongType)),
        <i32 as FromSql<Integer, Sqlite>>::from_sql(SqliteValue::Text("3"))
    );
    assert_eq!(
        Ok(true),
        <bool as FromSql<Bool, Sqlite>>::from_sql(SqliteValue::Integer(2))
    );
    assert_eq!(
        Ok(false),
        <bool as FromSql<Bool, Sqlite>>::from_sql(SqliteValue::Integer(0))
    );
    assert_eq!(
        Ok("Ann".to_string()),
        <String as FromSql<Text, Sqlite>>::from_sql(SqliteValue::Text("Ann"))
    );
    assert_eq!(
        Err(DeserializeError::Malformed(Cause::WrongType)),
        <String as FromSql<Text, Sqlite>>::from_sql(SqliteValue::Blob(&[65]))
    );
    assert_eq!(
        Err(DeserializeError::Malformed(Cause::WrongType)),
        <i64 as FromSql<BigInt, Sqlite>>::from_sql(SqliteValue::Real(0))
    );
}

#[test]
fn an_argument_handle_is_null_or_a_value() {
    assert!(SqliteValue::new(RawArgument::Null).is_none());
    assert!(matches!(
        SqliteValue::new(RawArgument::Integer(4)),
        Some(SqliteValue::Integer(4))
    ));
    assert!(matches!(
        SqliteValue::new(RawArgument::Real(17)),
        Some(SqliteValue::Real(17))
    ));
    assert!(matches!(
        SqliteValue::new(RawArgument::Text("x")),
        Some(SqliteValue::Text("x"))
    ));
    assert!(matches!(
        SqliteValue::new(RawArgument::Blob(&[1, 2])),
        Some(SqliteValue::Blob(&[1, 2]))
    ));
}

#[test]
fn output_collects_what_is_written() {
    let mut out = Output::new(vec![9]);
    assert!(!out.is_empty());
    assert_eq!(Ok(()), out.write_all(&[1, 2]));
    assert_eq!(Ok(()), out.write_all(&[]));
    assert_eq!(Ok(()), out.write_all(&[3]));
    assert_eq!(&[9u8, 1, 2, 3][..], out.as_bytes());
    assert_eq!(vec![9u8, 1, 2, 3], out.into_inner());
}

#[test]
fn option_of_a_reference_is_written_as_what_it_refers_to() {
    let mut out = Output::test();
    let value = 7;
    assert_eq!(
        Ok(IsNull::No),
        ToSql::<Nullable<Integer>, Pg>::to_sql(&Some(&value), &mut out)
    );
    assert_eq!(&[0u8, 0, 0, 7][..], out.as_bytes());
    assert_eq!(
        Ok(IsNull::Yes),
        ToSql::<Nullable<Integer>, Pg>::to_sql(&None::<i32>, &mut out)
    );
    assert_eq!(&[0u8, 0, 0, 7][..], out.as_bytes());
}

#[test]
fn a_full_buffer_refuses_the_write_and_keeps_what_it_holds() {
    let mut out = Output::with_limit(vec![9], 3);
    assert_eq!(Err(SerializeError::BufferFull), out.write_all(&[1, 2, 3]));
    assert_eq!(&[9u8][..], out.as_bytes());
    assert_eq!(Ok(()), out.write_all(&[1, 2]));
    assert_eq!(&[9u8, 1, 2][..], out.as_bytes());
    assert_eq!(Ok(()), out.write_all(&[]));
    assert_eq!(Err(SerializeError::BufferFull), out.write_all(&[3]));
    assert_eq!(&[9u8, 1, 2][..], out.as_bytes());

    let mut out = Output::with_limit(vec![1, 2, 3], 2);
    assert_eq!(Err(SerializeError::BufferFull), out.write_all(&[]));
    assert_eq!(&[1u8, 2, 3][..], out.as_bytes());
}

#[test]
fn a_value_that_does_not_fit_is_not_written() {
    let mut out = Output::with_limit(Vec::new(), 3);
    assert_eq!(
        Err(SerializeError::BufferFull),
        ToSql::<Integer, Pg>::to_sql(&7, &mut out)
    );
    assert!(out.is_empty());
    assert_eq!(
        Err(SerializeError::BufferFull),
        ToSql::<Nullable<Text>, Pg>::to_sql(&Some("Sean"), &mut out)
    );
    assert!(out.is_empty());
    assert_eq!(
        Ok(IsNull::Yes),
        ToSql::<Nullable<Text>, Pg>::to_sql(&None::<String>, &mut out)
    );
    assert_eq!(
        Ok(IsNull::No),
        ToSql::<Text, Pg>::to_sql("abc", &mut out)
    );
    assert_eq!(b"abc", out.as_bytes());
    assert_eq!(
        Err(SerializeError::BufferFull),
        ToSql::<Bool, Pg>::to_sql(&true, &mut out)
    );
    assert_eq!(Ok(IsNull::No), ToSql::<Text, Pg>::to_sql("", &mut out));
    assert_eq!(b"abc", out.as_bytes());
    assert_eq!(Err(SerializeError::BufferFull), write_value(&[0], &mut out));
    assert_eq!(Ok(IsNull::No), write_value(&[], &mut out));
}

#[test]
fn mysql_bool_round_trips() {
    for value in [true, false] {
        let mut out = Output::test();
        assert_eq!(Ok(IsNull::No), ToSql::<Bool, Mysql>::to_sql(&value, &mut out));
        assert_eq!(&[if value { 1u8 } else { 0u8 }][..], out.as_bytes());
        let bytes = out.into_inner();
        let raw = MysqlValue::new(&bytes, <Mysql as HasSqlType<Bool>>::metadata(&()));
        assert_eq!(Ok(value), <bool as FromSql<Bool, Mysql>>::from_sql(raw));
        let raw = MysqlValue::new(&bytes, MysqlType::Tiny);
        assert_eq!(
            Ok(value),
            <bool as FromSql<Bool, Mysql>>::from_nullable_sql(Some(raw))
        );
    }
}

#[test]
fn pg_types_have_their_object_ids() {
    assert_eq!(PgTypeMetadata { oid: 23 }, <Pg as HasSqlType<Integer>>::metadata(&()));
    assert_eq!(PgTypeMetadata { oid: 16 }, <Pg as HasSqlType<Bool>>::metadata(&()));
    assert_eq!(PgTypeMetadata { oid: 25 }, <Pg as HasSqlType<Text>>::metadata(&()));
    assert_eq!(
        PgTypeMetadata { oid: 25 },
        <Pg as HasSqlType<Nullable<Text>>>::metadata(&())
    );
}

#[test]
fn a_value_sent_to_pg_comes_back_through_from_nullable_sql() {
    for value in [0, -1, i32::MIN, i32::MAX, 77] {
        let bytes = pg_bytes_of_i32(value);
        let oid = <Pg as HasSqlType<Integer>>::metadata(&()).oid;
        assert_eq!(
            Ok(value),
            <i32 as FromSql<Integer, Pg>>::from_nullable_sql(Some(PgValue::new(&bytes, oid)))
        );
        assert_eq!(
            Ok(Some(value)),
            <Option<i32> as FromSql<Nullable<Integer>, Pg>>::from_nullable_sql(Some(
                PgValue::new(&bytes, oid)
            ))
        );
    }
}

#[test]
fn sqlite_integers_come_back_from_the_engine() {
    for value in [0, 1, -1, 258, i32::MIN, i32::MAX] {
        let sent = process_sql_function_result::<Integer, i32>(value).unwrap();
        assert_eq!(SqliteType::Integer, sent.ty);
        let back = SqliteValue::new(sent.as_argument()).unwrap();
        assert_eq!(Ok(value), <i32 as FromSql<Integer, Sqlite>>::from_sql(back));
        let back = SqliteValue::new(sent.as_argument());
        assert_eq!(Ok(value), <i32 as FromSql<Integer, Sqlite>>::from_nullable_sql(back));
    }
}

#[test]
fn sqlite_long_integers_come_back_from_the_engine() {
    let mut out = Output::test();
    assert_eq!(
        Ok(IsNull::No),
        ToSql::<BigInt, Sqlite>::to_sql(&0x0102_0304_0506_0708i64, &mut out)
    );
    assert_eq!(&[1u8, 2, 3, 4, 5, 6, 7, 8][..], out.as_bytes());
    for value in [0, 1, -1, -2, i64::MIN, i64::MAX, 5_000_000_000, -5_000_000_000, 1 << 32] {
        let sent = process_sql_function_result::<BigInt, i64>(value).unwrap();
        assert_eq!(SqliteType::Long, sent.ty);
        assert_eq!(Some(value.to_be_bytes().to_vec()), sent.data);
        let back = SqliteValue::new(sent.as_argument()).unwrap();
        assert_eq!(Ok(value), <i64 as FromSql<BigInt, Sqlite>>::from_sql(back));
    }
}

#[test]
fn sqlite_bool_and_text_come_back_from_the_engine() {
    for value in [true, false] {
        let sent = process_sql_function_result::<Bool, bool>(value).unwrap();
        assert_eq!(
            Some(vec![0, 0, 0, if value { 1 } else { 0 }]),
            sent.data
        );
        let back = SqliteValue::new(sent.as_argument()).unwrap();
        assert_eq!(Ok(value), <bool as FromSql<Bool, Sqlite>>::from_sql(back));
    }
    for value in ["", "Ann", "日本語"] {
        let sent = process_sql_function_result::<Text, String>(value.to_string()).unwrap();
        let back = SqliteValue::new(sent.as_argument()).unwrap();
        assert_eq!(
            Ok(value.to_string()),
            <String as FromSql<Text, Sqlite>>::from_sql(back)
        );
    }
    let sent = process_sql_function_result::<Nullable<Text>, Option<String>>(None).unwrap();
    assert!(SqliteValue::new(sent.as_argument()).is_none());
    assert_eq!(
        Ok(None),
        <Option<String> as FromSql<Nullable<Text>, Sqlite>>::from_nullable_sql(
            SqliteValue::new(sent.as_argument())
        )
    );
}

#[test]
fn the_engine_keeps_bytes_that_spell_no_value_as_they_are() {
    let odd = SerializedValue { ty: SqliteType::Integer, data: Some(vec![1, 2, 3]) };
    assert!(matches!(odd.as_argument(), RawArgument::Blob(&[1, 2, 3])));
    let odd = SerializedValue { ty: SqliteType::Long, data: Some(vec![0, 0, 0, 1]) };
    assert!(matches!(odd.as_argument(), RawArgument::Blob(&[0, 0, 0, 1])));
    let odd = SerializedValue { ty: SqliteType::Text, data: Some(vec![0xff]) };
    assert!(matches!(odd.as_argument(), RawArgument::Blob(&[0xff])));
    let blob = SerializedValue { ty: SqliteType::Binary, data: Some(vec![65]) };
    assert!(matches!(blob.as_argument(), RawArgument::Blob(&[65])));
    let text = SerializedValue { ty: SqliteType::Text, data: Some(vec![65]) };
    assert!(matches!(text.as_argument(), RawArgument::Text("A")));
    let null = SerializedValue { ty: SqliteType::Binary, data: None };
    assert!(matches!(null.as_argument(), RawArgument::Null));
    let long = SerializedValue { ty: SqliteType::Long, data: Some(vec![0xff; 8]) };
    assert!(matches!(long.as_argument(), RawArgument::Integer(-1)));
}
