use diesel_rows::expression::SqlLiteral;
use diesel_rows::pg::backend::Pg;
use diesel_rows::pg::expression::date_and_time::AtTimeZone;
use diesel_rows::query_builder::{AstPass, QueryFragment};
use diesel_rows::sql_types::{Timestamptz, Typed, VarChar};

#[test]
fn at_time_zone_is_written_between_its_sides() {
    let expression = AtTimeZone::new(
        SqlLiteral::<Typed<Timestamptz>>::new("created_at"),
        SqlLiteral::<Typed<VarChar>>::new("'UTC'"),
    );
    let mut out = AstPass::<Pg>::new();
    out.push_sql("SELECT ");
    assert_eq!(Ok(()), expression.walk_ast(&mut out));
    assert_eq!("SELECT created_at AT TIME ZONE 'UTC'", out.sql());
}

#[test]
fn at_time_zone_nests() {
    let inner = AtTimeZone::new(
        SqlLiteral::<Typed<Timestamptz>>::new("a"),
        SqlLiteral::<Typed<VarChar>>::new("b"),
    );
    let outer = AtTimeZone::new(inner, SqlLiteral::<Typed<VarChar>>::new(""));
    let mut out = AstPass::<Pg>::new();
    assert_eq!(Ok(()), outer.walk_ast(&mut out));
    assert_eq!("a AT TIME ZONE b AT TIME ZONE ", out.sql());
}
