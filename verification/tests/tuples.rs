use diesel_rows::deserialize::{Cause, DeserializeError, FromSqlRow, StaticallySizedRow};
use diesel_rows::pg::backend::Pg;
use diesel_rows::pg::connection::result::PgResult;
use diesel_rows::pg::connection::row::PgRow;
use diesel_rows::row::Row;
use diesel_rows::sql_types::{Bool, Integer, Nullable, Text, Typed};

type Int = Typed<Integer>;
type Txt = Typed<Text>;
type Boolean = Typed<Bool>;

fn int4(value: i32) -> Option<Vec<u8>> {
    Some(value.to_be_bytes().to_vec())
}

fn text(value: &str) -> Option<Vec<u8>> {
    Some(value.as_bytes().to_vec())
}

fn one_row(cells: Vec<Option<Vec<u8>>>) -> PgResult {
    let columns = cells.len();
    PgResult::new(vec![None; columns], vec![0; columns], vec![cells]).unwrap()
}

#[test]
fn a_single_value_takes_one_column() {
    let result = one_row(vec![int4(7), int4(8)]);
    let mut row = PgRow::new(&result, 0);
    assert_eq!(Ok(7), <i32 as FromSqlRow<Int, Pg>>::build_from_row(&mut row));
    assert_eq!(1, row.len());
    assert_eq!(Ok(8), <i32 as FromSqlRow<Int, Pg>>::build_from_row(&mut row));
    assert_eq!(0, row.len());
    assert_eq!(
        Err(DeserializeError::UnexpectedEndOfRow),
        <i32 as FromSqlRow<Int, Pg>>::build_from_row(&mut row)
    );
    assert_eq!(0, row.len());
    assert_eq!(1, <i32 as StaticallySizedRow<Int, Pg>>::FIELD_COUNT);
    assert_eq!(1, <String as StaticallySizedRow<Txt, Pg>>::FIELD_COUNT);
    assert_eq!(1, <bool as StaticallySizedRow<Boolean, Pg>>::FIELD_COUNT);
}

#[test]
fn a_single_value_refuses_null() {
    let result = one_row(vec![None, int4(1)]);
    let mut row = PgRow::new(&result, 0);
    assert_eq!(
        Err(DeserializeError::UnexpectedNull),
        <i32 as FromSqlRow<Int, Pg>>::build_from_row(&mut row)
    );
    assert_eq!(1, row.len());
}

#[test]
fn a_single_value_is_null_where_its_column_is() {
    let result = one_row(vec![None, int4(1)]);
    let mut row = PgRow::new(&result, 0);
    assert!(<i32 as FromSqlRow<Int, Pg>>::is_null(&mut row));
    assert_eq!(1, row.len());
    assert!(!<i32 as FromSqlRow<Int, Pg>>::is_null(&mut row));
    assert_eq!(0, row.len());
    assert!(!<i32 as FromSqlRow<Int, Pg>>::is_null(&mut row));
    assert_eq!(0, row.len());
}

#[test]
fn a_tuple_is_built_left_to_right() {
    type Row3 = (i32, String, bool);
    type Sql3 = Typed<(Int, Txt, Boolean)>;
    let result = one_row(vec![int4(7), text("Ann"), Some(vec![1]), int4(99)]);
    let mut row = PgRow::new(&result, 0);
    assert_eq!(
        Ok((7, "Ann".to_string(), true)),
        <Row3 as FromSqlRow<Sql3, Pg>>::build_from_row(&mut row)
    );
    assert_eq!(1, row.len());
    assert_eq!(3, <Row3 as StaticallySizedRow<Sql3, Pg>>::FIELD_COUNT);
}

#[test]
fn field_count_is_the_sum_of_the_elements() {
    type One = (i32,);
    type Two = (i32, String);
    type Nested = (Two, One, (bool, Two));
    assert_eq!(1, <One as StaticallySizedRow<Typed<(Int,)>, Pg>>::FIELD_COUNT);
    assert_eq!(2, <Two as StaticallySizedRow<Typed<(Int, Txt)>, Pg>>::FIELD_COUNT);
    assert_eq!(
        6,
        <Nested as StaticallySizedRow<
            Typed<(Typed<(Int, Txt)>, Typed<(Int,)>, Typed<(Boolean, Typed<(Int, Txt)>)>)>,
            Pg,
        >>::FIELD_COUNT
    );
    assert_eq!(
        6,
        <(i32, i32, i32, i32, i32, i32) as StaticallySizedRow<
            Typed<(Int, Int, Int, Int, Int, Int)>,
            Pg,
        >>::FIELD_COUNT
    );
    assert_eq!(
        2,
        <Option<Two> as StaticallySizedRow<Typed<Nullable<(Int, Txt)>>, Pg>>::FIELD_COUNT
    );
}

#[test]
fn a_tuple_consumes_exactly_its_field_count() {
    type Pair = (i32, i32);
    type SqlPair = Typed<(Int, Int)>;
    let result = one_row(vec![int4(1), int4(2), int4(3), int4(4), int4(5)]);
    let mut row = PgRow::new(&result, 0);
    let count = <Pair as StaticallySizedRow<SqlPair, Pg>>::FIELD_COUNT;
    let before = row.len();
    assert_eq!(Ok((1, 2)), <Pair as FromSqlRow<SqlPair, Pg>>::build_from_row(&mut row));
    assert_eq!(before - count, row.len());
    assert_eq!(Ok((3, 4)), <Pair as FromSqlRow<SqlPair, Pg>>::build_from_row(&mut row));
    assert_eq!(before - 2 * count, row.len());
    assert_eq!(
        Err(DeserializeError::UnexpectedEndOfRow),
        <Pair as FromSqlRow<SqlPair, Pg>>::build_from_row(&mut row)
    );
}

#[test]
fn the_first_failure_is_the_tuples() {
    type Row3 = (i32, i32, String);
    type Sql3 = Typed<(Int, Int, Txt)>;
    let result = one_row(vec![int4(1), Some(vec![1, 2]), Some(vec![0xff])]);
    let mut row = PgRow::new(&result, 0);
    assert_eq!(
        Err(DeserializeError::Malformed(Cause::WrongLength)),
        <Row3 as FromSqlRow<Sql3, Pg>>::build_from_row(&mut row)
    );
    assert_eq!(1, row.len());

    let result = one_row(vec![int4(1), int4(2), Some(vec![0xff])]);
    let mut row = PgRow::new(&result, 0);
    assert_eq!(
        Err(DeserializeError::Malformed(Cause::InvalidUtf8)),
        <Row3 as FromSqlRow<Sql3, Pg>>::build_from_row(&mut row)
    );
    assert_eq!(0, row.len());
}

#[test]
fn a_tuple_is_null_where_any_element_is() {
    type Pair = (i32, String);
    type SqlPair = Typed<(Int, Txt)>;
    let cases = [
        (vec![int4(7), text("x")], false),
        (vec![int4(7), None], true),
        (vec![None, text("x")], true),
        (vec![None, None], true),
    ];
    for (cells, expected) in cases {
        let result = one_row(cells);
        let mut row = PgRow::new(&result, 0);
        assert_eq!(expected, <Pair as FromSqlRow<SqlPair, Pg>>::is_null(&mut row));
        assert_eq!(0, row.len());
    }
}

#[test]
fn with_a_value_in_the_first_column_the_second_decides() {
    type Pair = (i32, String);
    type SqlPair = Typed<(Int, Txt)>;
    for id in [0, 7, -1] {
        let result = one_row(vec![int4(id), None]);
        let mut row = PgRow::new(&result, 0);
        assert!(<Pair as FromSqlRow<SqlPair, Pg>>::is_null(&mut row));

        let result = one_row(vec![int4(id), text("Ann")]);
        let mut row = PgRow::new(&result, 0);
        assert!(!<Pair as FromSqlRow<SqlPair, Pg>>::is_null(&mut row));
    }
}

#[test]
fn an_optional_element_is_never_the_null_one() {
    type Pair = (i32, Option<String>);
    type SqlPair = Typed<(Int, Typed<Nullable<Text>>)>;
    let result = one_row(vec![int4(7), None]);
    let mut row = PgRow::new(&result, 0);
    assert!(!<Pair as FromSqlRow<SqlPair, Pg>>::is_null(&mut row));
    assert_eq!(0, row.len());

    let result = one_row(vec![None, None]);
    let mut row = PgRow::new(&result, 0);
    assert!(<Pair as FromSqlRow<SqlPair, Pg>>::is_null(&mut row));
}

#[test]
fn an_optional_value_is_none_for_null() {
    type Opt = Option<i32>;
    type Sql = Typed<Nullable<Integer>>;
    let result = one_row(vec![None, int4(3), Some(vec![1])]);
    let mut row = PgRow::new(&result, 0);
    assert_eq!(Ok(None), <Opt as FromSqlRow<Sql, Pg>>::build_from_row(&mut row));
    assert_eq!(2, row.len());
    assert_eq!(Ok(Some(3)), <Opt as FromSqlRow<Sql, Pg>>::build_from_row(&mut row));
    assert_eq!(1, row.len());
    assert_eq!(
        Err(DeserializeError::Malformed(Cause::WrongLength)),
        <Opt as FromSqlRow<Sql, Pg>>::build_from_row(&mut row)
    );
    assert_eq!(0, row.len());
    assert_eq!(
        Err(DeserializeError::UnexpectedEndOfRow),
        <Opt as FromSqlRow<Sql, Pg>>::build_from_row(&mut row)
    );
}

#[test]
fn an_optional_value_is_not_null_itself() {
    type Opt = Option<i32>;
    type Sql = Typed<Nullable<Integer>>;
    let result = one_row(vec![None, int4(3)]);
    let mut row = PgRow::new(&result, 0);
    assert!(!<Opt as FromSqlRow<Sql, Pg>>::is_null(&mut row));
    assert_eq!(1, row.len());
    assert!(!<Opt as FromSqlRow<Sql, Pg>>::is_null(&mut row));
    assert_eq!(0, row.len());
}

#[test]
fn an_optional_tuple_is_none_where_any_column_is_null() {
    type Pair = (i32, String);
    type Opt = Option<Pair>;
    type Sql = Typed<Nullable<(Int, Txt)>>;
    let result = one_row(vec![int4(1), None, int4(5)]);
    let mut row = PgRow::new(&result, 0);
    assert_eq!(Ok(None), <Opt as FromSqlRow<Sql, Pg>>::build_from_row(&mut row));
    assert_eq!(1, row.len());

    let result = one_row(vec![int4(1), text("Ann"), int4(5)]);
    let mut row = PgRow::new(&result, 0);
    assert_eq!(
        Ok(Some((1, "Ann".to_string()))),
        <Opt as FromSqlRow<Sql, Pg>>::build_from_row(&mut row)
    );
    assert_eq!(1, row.len());
}

#[test]
fn an_optional_tuple_on_a_short_row_of_null_is_none() {
    type Opt = Option<(i32, i32)>;
    type Sql = Typed<Nullable<(Int, Int)>>;
    let result = one_row(vec![None]);
    let mut row = PgRow::new(&result, 0);
    assert_eq!(Ok(None), <Opt as FromSqlRow<Sql, Pg>>::build_from_row(&mut row));
    assert_eq!(0, row.len());
}

#[test]
fn tuples_nest() {
    type Inner = (i32, Option<i32>);
    type Outer = (Inner, String, Inner);
    type SqlInner = Typed<(Int, Typed<Nullable<Integer>>)>;
    type SqlOuter = Typed<(SqlInner, Txt, SqlInner)>;
    let result = one_row(vec![int4(1), None, text("mid"), int4(2), int4(3)]);
    let mut row = PgRow::new(&result, 0);
    assert_eq!(
        Ok(((1, None), "mid".to_string(), (2, Some(3)))),
        <Outer as FromSqlRow<SqlOuter, Pg>>::build_from_row(&mut row)
    );
    assert_eq!(0, row.len());
}

#[test]
fn a_tuple_of_twelve_is_built_left_to_right() {
    type Row12 = (i32, i32, i32, i32, i32, i32, i32, i32, i32, i32, i32, String);
    type Sql12 = Typed<(Int, Int, Int, Int, Int, Int, Int, Int, Int, Int, Int, Txt)>;
    let mut cells: Vec<Option<Vec<u8>>> = (1..=11).map(int4).collect();
    cells.push(text("end"));
    cells.push(int4(99));
    let result = one_row(cells);
    let mut row = PgRow::new(&result, 0);
    assert_eq!(12, <Row12 as StaticallySizedRow<Sql12, Pg>>::FIELD_COUNT);
    assert_eq!(
        Ok((1, 2, 3, 4, 5, 6, 7, 8, 9, 10, 11, "end".to_string())),
        <Row12 as FromSqlRow<Sql12, Pg>>::build_from_row(&mut row)
    );
    assert_eq!(1, row.len());

    let mut row = PgRow::new(&result, 0);
    assert!(!<Row12 as FromSqlRow<Sql12, Pg>>::is_null(&mut row));
    assert_eq!(1, row.len());
}

#[test]
fn field_count_is_the_arity_for_every_tuple_of_columns() {
    assert_eq!(
        7,
        <(i32, i32, i32, i32, i32, i32, i32) as StaticallySizedRow<
            Typed<(Int, Int, Int, Int, Int, Int, Int)>,
            Pg,
        >>::FIELD_COUNT
    );
    assert_eq!(
        8,
        <(i32, i32, i32, i32, i32, i32, i32, i32) as StaticallySizedRow<
            Typed<(Int, Int, Int, Int, Int, Int, Int, Int)>,
            Pg,
        >>::FIELD_COUNT
    );
    assert_eq!(
        9,
        <(i32, i32, i32, i32, i32, i32, i32, i32, i32) as StaticallySizedRow<
            Typed<(Int, Int, Int, Int, Int, Int, Int, Int, Int)>,
            Pg,
        >>::FIELD_COUNT
    );
    assert_eq!(
        10,
        <(i32, i32, i32, i32, i32, i32, i32, i32, i32, i32) as StaticallySizedRow<
            Typed<(Int, Int, Int, Int, Int, Int, Int, Int, Int, Int)>,
            Pg,
        >>::FIELD_COUNT
    );
    assert_eq!(
        11,
        <(i32, i32, i32, i32, i32, i32, i32, i32, i32, i32, i32) as StaticallySizedRow<
            Typed<(Int, Int, Int, Int, Int, Int, Int, Int, Int, Int, Int)>,
            Pg,
        >>::FIELD_COUNT
    );
}
