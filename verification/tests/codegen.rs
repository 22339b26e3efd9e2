use diesel_rows::codegen::{
    column_name, decimal_string, get_ident, match_block, match_blocks, sql_type, Field, FieldName,
    MatchBlock, Model, SqlTypeSource,
};

fn named(name: &str) -> Field {
    Field {
        name: FieldName::Named(name.to_string()),
        column_name_from_attribute: None,
        sql_type: None,
        embed: false,
    }
}

fn unnamed(index: u32) -> Field {
    Field {
        name: FieldName::Unnamed(index),
        column_name_from_attribute: None,
        sql_type: None,
        embed: false,
    }
}

fn model(declared: bool, fields: Vec<Field>) -> Model {
    Model {
        table_name: "users".to_string(),
        has_table_name_attribute: declared,
        fields,
    }
}

#[test]
fn numbers_are_written_in_decimal() {
    assert_eq!("0", decimal_string(0));
    assert_eq!("7", decimal_string(7));
    assert_eq!("9", decimal_string(9));
    assert_eq!("10", decimal_string(10));
    assert_eq!("42", decimal_string(42));
    assert_eq!("100", decimal_string(100));
    assert_eq!("1234567890", decimal_string(1_234_567_890));
    assert_eq!("4294967295", decimal_string(u32::MAX));
}

#[test]
fn a_named_field_is_called_by_its_name() {
    assert_eq!("id", get_ident(&named("id")));
    assert_eq!("", get_ident(&named("")));
}

#[test]
fn an_unnamed_field_is_called_by_its_index() {
    assert_eq!("field_0", get_ident(&unnamed(0)));
    assert_eq!("field_12", get_ident(&unnamed(12)));
}

#[test]
fn a_declared_column_wins_over_the_field_name() {
    let mut field = named("id");
    assert_eq!("id", column_name(&field));
    field.column_name_from_attribute = Some("user_id".to_string());
    assert_eq!("user_id", column_name(&field));
    assert_eq!("id", get_ident(&field));
    assert_eq!("field_3", column_name(&unnamed(3)));
}

#[test]
fn a_declared_sql_type_wins() {
    let mut field = named("id");
    field.sql_type = Some("Integer".to_string());
    assert_eq!(
        SqlTypeSource::Declared("Integer".to_string()),
        sql_type(&field, &model(true, vec![]))
    );
    assert_eq!(
        SqlTypeSource::Declared("Integer".to_string()),
        sql_type(&field, &model(false, vec![]))
    );
}

#[test]
fn a_declared_table_gives_the_type_of_its_column() {
    let mut field = named("id");
    assert_eq!(
        SqlTypeSource::OfColumn { table: "users".to_string(), column: "id".to_string() },
        sql_type(&field, &model(true, vec![]))
    );
    field.column_name_from_attribute = Some("user_id".to_string());
    assert_eq!(
        SqlTypeSource::OfColumn { table: "users".to_string(), column: "user_id".to_string() },
        sql_type(&field, &model(true, vec![]))
    );
    assert_eq!(
        SqlTypeSource::OfColumn { table: "users".to_string(), column: "field_1".to_string() },
        sql_type(&unnamed(1), &model(true, vec![]))
    );
}

#[test]
fn without_either_the_sql_type_is_unknown() {
    assert_eq!(
        SqlTypeSource::Unknown { message: "Cannot determine the SQL type of id".to_string() },
        sql_type(&named("id"), &model(false, vec![]))
    );
    assert_eq!(
        SqlTypeSource::Unknown { message: "Cannot determine the SQL type of field".to_string() },
        sql_type(&unnamed(4), &model(false, vec![]))
    );
}

#[test]
fn a_match_block_names_variable_column_and_type() {
    let mut field = unnamed(2);
    field.column_name_from_attribute = Some("name".to_string());
    field.sql_type = Some("Text".to_string());
    assert_eq!(
        MatchBlock {
            field_name: "field_2".to_string(),
            column_name: "name".to_string(),
            sql_type: SqlTypeSource::Declared("Text".to_string()),
        },
        match_block(&field, &model(false, vec![]))
    );
}

#[test]
fn embedded_fields_get_no_match_block() {
    let mut embedded = named("address");
    embedded.embed = true;
    let record = model(true, vec![named("id"), embedded, unnamed(2), named("name")]);
    let blocks = match_blocks(&record);
    assert_eq!(
        vec!["id", "field_2", "name"],
        blocks.iter().map(|b| b.field_name.as_str()).collect::<Vec<_>>()
    );
    assert_eq!(
        vec!["id", "field_2", "name"],
        blocks.iter().map(|b| b.column_name.as_str()).collect::<Vec<_>>()
    );
    assert!(match_blocks(&model(true, vec![])).is_empty());
    let mut only = named("x");
    only.embed = true;
    assert!(match_blocks(&model(true, vec![only])).is_empty());
}
