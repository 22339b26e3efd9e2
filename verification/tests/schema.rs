use diesel_rows::deserialize::{DeserializeError, FromSqlRow, StaticallySizedRow};
use diesel_rows::infer_schema_internals::data_structures::{
    ColumnDefinition, ColumnInformation, ColumnType, ForeignKeyConstraint, TableInfoRow,
};
use diesel_rows::infer_schema_internals::inference::{is_reserved, rust_name_for_sql_name};
use diesel_rows::infer_schema_internals::table_data::{Never, TableData, TableName};
use diesel_rows::infer_schema_internals::text_order::{order_of_text, Order};
use diesel_rows::pg::backend::Pg;
use diesel_rows::pg::connection::result::PgResult;
use diesel_rows::pg::connection::row::PgRow;
use diesel_rows::row::Row;
use diesel_rows::sql_types::{Text, Typed};
use diesel_rows::sqlite::backend::{RawArgument, Sqlite};
use diesel_rows::sqlite::connection::functions::FunctionRow;

type Txt = Typed<Text>;

fn text(value: &str) -> Option<Vec<u8>> {
    Some(value.as_bytes().to_vec())
}

fn one_row(cells: Vec<Option<Vec<u8>>>) -> PgResult {
    let columns = cells.len();
    PgResult::new(vec![None; columns], vec![0; columns], vec![cells]).unwrap()
}

fn key(parent: TableName, child: TableName) -> ForeignKeyConstraint {
    ForeignKeyConstraint {
        child_table: child,
        parent_table: parent,
        foreign_key: "user_id".to_string(),
        foreign_key_rust_name: "user_id".to_string(),
        primary_key: "id".to_string(),
    }
}

#[test]
fn a_table_name_without_schema() {
    let table = TableName::from_name("users");
    assert_eq!("users", table.sql_name);
    assert_eq!("users", table.rust_name);
    assert_eq!(None, table.schema);
    assert_eq!("users", table.full_sql_name());
    assert_eq!("users", table.display());
}

#[test]
fn a_table_name_with_schema() {
    let table = TableName::new("users", "public");
    assert_eq!("users", table.sql_name);
    assert_eq!("users", table.rust_name);
    assert_eq!(Some("public".to_string()), table.schema);
    assert_eq!("public.users", table.full_sql_name());
    assert_eq!("public.users", table.display());
}

#[test]
fn a_reserved_word_gets_an_underscore_in_rust() {
    let table = TableName::new("type", "app");
    assert_eq!("type", table.sql_name);
    assert_eq!("type_", table.rust_name);
    assert_eq!("app.type", table.full_sql_name());
    assert_eq!("app.type_", table.display());
    assert_eq!("self_", rust_name_for_sql_name("self"));
    assert_eq!("Self_", rust_name_for_sql_name("Self"));
    assert_eq!("yield_", rust_name_for_sql_name("yield"));
    assert_eq!("abstract_", rust_name_for_sql_name("abstract"));
    assert_eq!("types", rust_name_for_sql_name("types"));
    assert_eq!("Type", rust_name_for_sql_name("Type"));
    assert_eq!("", rust_name_for_sql_name(""));
    assert!(is_reserved("fn"));
    assert!(!is_reserved("fn_"));
}

#[test]
fn the_schema_is_stripped_only_where_it_matches() {
    let mut table = TableName::new("users", "public");
    table.strip_schema_if_matches("private");
    assert_eq!(Some("public".to_string()), table.schema);
    table.strip_schema_if_matches("publi");
    assert_eq!(Some("public".to_string()), table.schema);
    table.strip_schema_if_matches("public");
    assert_eq!(None, table.schema);
    assert_eq!("users", table.sql_name);
    assert_eq!("users", table.rust_name);
    table.strip_schema_if_matches("public");
    assert_eq!(None, table.schema);
}

#[test]
fn a_table_name_is_parsed_at_the_dots() {
    assert_eq!(TableName::from_name("users"), TableName::parse("users"));
    assert_eq!(TableName::new("users", "public"), TableName::parse("public.users"));
    assert_eq!(TableName::new("b", "a"), TableName::parse("a.b.c"));
    assert_eq!(TableName::new("x", ""), TableName::parse(".x"));
    assert_eq!(TableName::new("", "a"), TableName::parse("a."));
    assert_eq!(TableName::new("", ""), TableName::parse("."));
    assert_eq!(TableName::new("", ""), TableName::parse(".."));
    assert_eq!(TableName::from_name(""), TableName::parse(""));
    assert_eq!(TableName::new("tàble", "schéma"), TableName::parse("schéma.tàble"));
    assert_eq!(TableName::new("type", "s"), TableName::parse("s.type"));
    assert_eq!("type_", TableName::parse("s.type").rust_name);
    let parsed: Result<TableName, Never> = "public.users".parse();
    assert_eq!(TableName::new("users", "public"), parsed.unwrap());
}

#[test]
fn ordered_tables_puts_the_smaller_name_first() {
    let users = TableName::from_name("users");
    let posts = TableName::from_name("posts");
    let constraint = key(users.clone(), posts.clone());
    assert_eq!((&posts, &users), constraint.ordered_tables());
    let constraint = key(posts.clone(), users.clone());
    assert_eq!((&posts, &users), constraint.ordered_tables());
}

#[test]
fn ordered_tables_agrees_with_the_order_of_table_names() {
    let names = [
        TableName::from_name(""),
        TableName::from_name("a"),
        TableName::from_name("ab"),
        TableName::from_name("b"),
        TableName::from_name("B"),
        TableName::from_name("é"),
        TableName::new("a", ""),
        TableName::new("a", "s"),
        TableName::new("a", "t"),
        TableName::new("type", "s"),
        TableName { sql_name: "a".to_string(), rust_name: "b".to_string(), schema: None },
        TableName { sql_name: "a".to_string(), rust_name: "".to_string(), schema: Some("z".to_string()) },
    ];
    for parent in &names {
        for child in &names {
            let constraint = key(parent.clone(), child.clone());
            let (first, second) = constraint.ordered_tables();
            assert_eq!(std::cmp::min(parent, child), first);
            assert_eq!(std::cmp::max(parent, child), second);
            let expected = match parent.cmp(child) {
                std::cmp::Ordering::Less => Order::Less,
                std::cmp::Ordering::Equal => Order::Equal,
                std::cmp::Ordering::Greater => Order::Greater,
            };
            assert_eq!(expected, parent.order(child));
        }
    }
}

#[test]
fn with_equal_names_the_parent_is_in_front() {
    let constraint = key(TableName::from_name("t"), TableName::from_name("t"));
    let (first, second) = constraint.ordered_tables();
    assert!(std::ptr::eq(first, &constraint.parent_table));
    assert!(std::ptr::eq(second, &constraint.child_table));
}

#[test]
fn texts_are_ordered_by_their_bytes() {
    assert_eq!(Order::Equal, order_of_text("", ""));
    assert_eq!(Order::Less, order_of_text("", "a"));
    assert_eq!(Order::Greater, order_of_text("a", ""));
    assert_eq!(Order::Less, order_of_text("a", "b"));
    assert_eq!(Order::Less, order_of_text("ab", "b"));
    assert_eq!(Order::Less, order_of_text("a", "ab"));
    assert_eq!(Order::Greater, order_of_text("b", "ab"));
    assert_eq!(Order::Less, order_of_text("Z", "a"));
    assert_eq!(Order::Less, order_of_text("z", "é"));
    assert_eq!(Order::Equal, order_of_text("é", "é"));
}

#[test]
fn a_column_type_is_written_with_its_wrappers() {
    let column = |is_array, is_nullable, is_unsigned| ColumnType {
        rust_name: "Integer".to_string(),
        is_array,
        is_nullable,
        is_unsigned,
    };
    assert_eq!("Integer", column(false, false, false).display());
    assert_eq!("Nullable<Integer>", column(false, true, false).display());
    assert_eq!("Array<Integer>", column(true, false, false).display());
    assert_eq!("Unsigned<Integer>", column(false, false, true).display());
    assert_eq!("Nullable<Array<Integer>>", column(true, true, false).display());
    assert_eq!("Nullable<Unsigned<Integer>>", column(false, true, true).display());
    assert_eq!("Array<Unsigned<Integer>>", column(true, false, true).display());
    assert_eq!(
        "Nullable<Array<Unsigned<Integer>>>",
        column(true, true, true).display()
    );
    let empty = ColumnType {
        rust_name: String::new(),
        is_array: true,
        is_nullable: false,
        is_unsigned: false,
    };
    assert_eq!("Array<>", empty.display());
}

#[test]
fn column_information_holds_what_it_is_given() {
    let column = ColumnInformation::new("id", "integer", true);
    assert_eq!("id", column.column_name);
    assert_eq!("integer", column.data_type);
    assert!(column.nullable);
    assert_eq!(
        ColumnInformation {
            column_name: "id".to_string(),
            data_type: "integer".to_string(),
            nullable: true,
        },
        column
    );
}

#[test]
fn a_table_name_is_read_from_a_pair_of_columns() {
    type Sql = Typed<(Txt, Txt)>;
    let result = one_row(vec![text("users"), text("public"), text("rest")]);
    let mut row = PgRow::new(&result, 0);
    assert_eq!(
        Ok(TableName::new("users", "public")),
        <TableName as FromSqlRow<Sql, Pg>>::build_from_row(&mut row)
    );
    assert_eq!(1, row.len());
    assert_eq!(2, <TableName as StaticallySizedRow<Sql, Pg>>::FIELD_COUNT);

    let result = one_row(vec![text("users"), None]);
    let mut row = PgRow::new(&result, 0);
    assert!(<TableName as FromSqlRow<Sql, Pg>>::is_null(&mut row));
    let mut row = PgRow::new(&result, 0);
    assert_eq!(
        Err(DeserializeError::UnexpectedNull),
        <TableName as FromSqlRow<Sql, Pg>>::build_from_row(&mut row)
    );
}

#[test]
fn column_information_is_read_from_the_information_schema() {
    type Sql = Typed<(Txt, Txt, Txt)>;
    for (flag, nullable) in [("YES", true), ("NO", false), ("yes", false), ("", false)] {
        let result = one_row(vec![text("id"), text("int4"), text(flag)]);
        let mut row = PgRow::new(&result, 0);
        assert_eq!(
            Ok(ColumnInformation::new("id", "int4", nullable)),
            <ColumnInformation as FromSqlRow<Sql, Pg>>::build_from_row(&mut row)
        );
        assert_eq!(0, row.len());
    }
    let result = one_row(vec![text("id"), text("int4")]);
    let mut row = PgRow::new(&result, 0);
    assert_eq!(
        Err(DeserializeError::UnexpectedEndOfRow),
        <ColumnInformation as FromSqlRow<Sql, Pg>>::build_from_row(&mut row)
    );
    let result = one_row(vec![text("id"), None, text("YES")]);
    let mut row = PgRow::new(&result, 0);
    assert!(<ColumnInformation as FromSqlRow<Sql, Pg>>::is_null(&mut row));
}

#[test]
fn column_information_is_read_from_the_table_description() {
    let args = [
        RawArgument::Integer(0),
        RawArgument::Text("id"),
        RawArgument::Text("INTEGER"),
        RawArgument::Integer(1),
        RawArgument::Null,
        RawArgument::Integer(1),
    ];
    let mut row = FunctionRow::new(&args);
    assert_eq!(
        Ok(ColumnInformation::new("id", "INTEGER", false)),
        <ColumnInformation as FromSqlRow<TableInfoRow, Sqlite>>::build_from_row(&mut row)
    );
    assert_eq!(0, row.len());

    let args = [
        RawArgument::Integer(1),
        RawArgument::Text("bio"),
        RawArgument::Text("TEXT"),
        RawArgument::Integer(0),
        RawArgument::Text("''"),
        RawArgument::Integer(0),
    ];
    let mut row = FunctionRow::new(&args);
    assert_eq!(
        Ok(ColumnInformation::new("bio", "TEXT", true)),
        <ColumnInformation as FromSqlRow<TableInfoRow, Sqlite>>::build_from_row(&mut row)
    );
    let mut row = FunctionRow::new(&args);
    assert!(!<ColumnInformation as FromSqlRow<TableInfoRow, Sqlite>>::is_null(&mut row));
    assert_eq!(0, row.len());
}

#[test]
fn table_data_holds_a_table() {
    let data = TableData {
        name: TableName::from_name("users"),
        primary_key: vec!["id".to_string()],
        column_data: vec![ColumnDefinition {
            sql_name: "id".to_string(),
            rust_name: "id".to_string(),
            ty: ColumnType {
                rust_name: "Integer".to_string(),
                is_array: false,
                is_nullable: false,
                is_unsigned: false,
            },
            docs: String::new(),
        }],
        docs: String::new(),
    };
    assert_eq!("users", data.name.full_sql_name());
    assert_eq!("Integer", data.column_data[0].ty.display());
    assert_eq!(1, data.primary_key.len());
}
