use diesel_rows::pg::connection::result::PgResult;
use diesel_rows::pg::connection::row::{PgField, PgRow};
use diesel_rows::row::{Field, Row};

fn people() -> PgResult {
    PgResult::new(
        vec![Some("id".to_string()), Some("name".to_string()), None],
        vec![23, 25, 16],
        vec![
            vec![Some(vec![0, 0, 0, 7]), Some(b"Ann".to_vec()), None],
            vec![Some(vec![0, 0, 0, 8]), None, Some(vec![1])],
        ],
    )
    .unwrap()
}

fn seen(field: &Option<PgField>) -> Option<(Option<String>, bool, Option<Vec<u8>>, Option<u32>)> {
    field.as_ref().map(|f| {
        (
            f.column_name().map(|n| n.to_string()),
            f.is_null(),
            f.value().map(|v| v.as_bytes().to_vec()),
            f.value().map(|v| v.get_oid()),
        )
    })
}

#[test]
fn a_result_set_must_have_one_cell_per_column() {
    assert!(PgResult::new(vec![None], vec![23, 25], vec![]).is_none());
    assert!(PgResult::new(vec![None, None], vec![23], vec![]).is_none());
    assert!(PgResult::new(vec![None], vec![23], vec![vec![None], vec![]]).is_none());
    assert!(PgResult::new(vec![None], vec![23], vec![vec![None, None]]).is_none());
    assert!(PgResult::new(vec![], vec![], vec![]).is_some());
    assert!(PgResult::new(vec![], vec![], vec![vec![], vec![]]).is_some());
}

#[test]
fn a_result_set_answers_by_coordinate() {
    let result = people();
    assert_eq!(3, result.column_count());
    assert_eq!(2, result.num_rows());
    assert_eq!(Some("id"), result.column_name(0));
    assert_eq!(Some("name"), result.column_name(1));
    assert_eq!(None, result.column_name(2));
    assert_eq!(None, result.column_name(3));
    assert_eq!(25, result.column_type(1));
    assert_eq!(Some(&b"Ann"[..]), result.get(0, 1));
    assert_eq!(None, result.get(0, 2));
    assert_eq!(None, result.get(1, 1));
    assert_eq!(Some(&[1u8][..]), result.get(1, 2));
    assert_eq!(None, result.get(2, 0));
    assert_eq!(None, result.get(0, 3));
    assert_eq!(None, result.get(usize::MAX, usize::MAX));
}

#[test]
fn a_row_yields_its_columns_in_order() {
    let result = people();
    let mut row = PgRow::new(&result, 0);
    assert_eq!(3, row.len());
    assert_eq!((3, Some(3)), row.size_hint());

    let field = row.next();
    assert_eq!(
        Some((Some("id".to_string()), false, Some(vec![0, 0, 0, 7]), Some(23))),
        seen(&field)
    );
    assert_eq!(2, row.len());
    assert_eq!((2, Some(2)), row.size_hint());

    let field = row.next();
    assert_eq!(
        Some((Some("name".to_string()), false, Some(b"Ann".to_vec()), Some(25))),
        seen(&field)
    );

    let field = row.next();
    assert_eq!(Some((None, true, None, None)), seen(&field));
    assert_eq!(0, row.len());

    assert!(row.next().is_none());
    assert!(row.next().is_none());
    assert_eq!(0, row.len());
    assert_eq!((0, Some(0)), row.size_hint());
}

#[test]
fn a_duplicate_moves_on_its_own() {
    let result = people();
    let mut row = PgRow::new(&result, 1);
    row.next();
    let mut copy = row.duplicate();
    assert_eq!(2, copy.len());
    copy.next();
    copy.next();
    assert_eq!(0, copy.len());
    assert_eq!(2, row.len());
    let field = row.next();
    assert_eq!(Some((Some("name".to_string()), true, None, None)), seen(&field));
}

#[test]
fn a_row_outside_the_result_set_has_only_null_columns() {
    let result = people();
    let mut row = PgRow::new(&result, 5);
    assert_eq!(3, row.len());
    let field = row.next();
    assert_eq!(Some((Some("id".to_string()), true, None, None)), seen(&field));
}

#[test]
fn nth_is_repeated_next_from_any_position() {
    let result = people();
    for row_idx in 0..2 {
        for moved in 0..5 {
            for k in 0..6 {
                let mut skipping = PgRow::new(&result, row_idx);
                let mut stepping = PgRow::new(&result, row_idx);
                for _ in 0..moved {
                    skipping.next();
                    stepping.next();
                }
                let by_nth = skipping.nth(k);
                for _ in 0..k {
                    stepping.next();
                }
                let by_next = stepping.next();

                assert_eq!(seen(&by_next), seen(&by_nth));
                assert_eq!(stepping.len(), skipping.len());
                assert_eq!(moved + k < 3, by_nth.is_some());
            }
        }
    }
}

#[test]
fn nth_skips_from_where_the_cursor_stands() {
    let result = people();
    let mut row = PgRow::new(&result, 0);
    let field = row.nth(1);
    assert_eq!(
        Some((Some("name".to_string()), false, Some(b"Ann".to_vec()), Some(25))),
        seen(&field)
    );
    assert_eq!(1, row.len());

    let field = row.nth(0);
    assert_eq!(Some((None, true, None, None)), seen(&field));
    assert_eq!(0, row.len());

    let mut row = PgRow::new(&result, 0);
    row.next();
    let field = row.nth(1);
    assert_eq!(Some((None, true, None, None)), seen(&field));
    assert_eq!(0, row.len());
}

#[test]
fn the_cursor_never_moves_backwards() {
    let result = people();
    let mut row = PgRow::new(&result, 0);
    row.next();
    row.next();
    assert_eq!(1, row.len());
    let field = row.nth(0);
    assert_eq!(Some((None, true, None, None)), seen(&field));
    assert_eq!(0, row.len());
}

#[test]
fn an_exhausted_cursor_stays_exhausted() {
    let result = people();
    for k in [3, 4, 100, usize::MAX] {
        let mut row = PgRow::new(&result, 0);
        assert!(row.nth(k).is_none());
        assert_eq!(0, row.len());
        assert_eq!((0, Some(0)), row.size_hint());
        assert!(row.next().is_none());
        assert!(row.nth(0).is_none());
        assert!(row.nth(1).is_none());
        assert!(row.nth(usize::MAX).is_none());
        assert!(row.next().is_none());
        assert_eq!(0, row.len());
    }

    let mut row = PgRow::new(&result, 0);
    row.next();
    assert!(row.nth(2).is_none());
    assert_eq!(0, row.len());
    assert!(row.nth(0).is_none());
}

#[test]
fn a_row_of_no_columns_is_exhausted_at_once() {
    let result = PgResult::new(vec![], vec![], vec![vec![]]).unwrap();
    let mut row = PgRow::new(&result, 0);
    assert_eq!(0, row.len());
    assert!(row.next().is_none());
    assert!(row.nth(0).is_none());
}
