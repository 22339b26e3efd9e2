//! What inference knows of columns and of the keys between tables.

use vstd::prelude::*;
use vstd::string::StringExecFns;
use crate::backend::Backend;
use crate::codec::str_eq;
use crate::deserialize::{FromSql, FromSqlRow, Outcome, Result, StaticallySizedRow};
use crate::infer_schema_internals::table_data::{table_order, TableName};
use crate::mysql::backend::Mysql;
use crate::pg::backend::Pg;
use crate::row::{FieldView, Row};
use crate::sql_types::{Bool, Integer, Nullable, Text, Typed};
use crate::sqlite::backend::Sqlite;
use crate::infer_schema_internals::text_order::Order;

verus! {

/// A column as the database's catalogue describes it.
#[derive(Debug, Clone, PartialEq, Eq)]
pub struct ColumnInformation {
    pub column_name: String,
    pub data_type: String,
    pub nullable: bool,
}

/// A `ColumnInformation` as a mathematical value.
pub struct ColumnInformationView {
    pub column_name: Seq<char>,
    pub data_type: Seq<char>,
    pub nullable: bool,
}

impl DeepView for ColumnInformation {
    type V = ColumnInformationView;

    open spec fn deep_view(&self) -> ColumnInformationView {
        ColumnInformationView {
            column_name: self.column_name@,
            data_type: self.data_type@,
            nullable: self.nullable,
        }
    }
}

/// The SQL type of a column as the generated schema names it.
#[derive(Debug)]
pub struct ColumnType {
    pub rust_name: String,
    pub is_array: bool,
    pub is_nullable: bool,
    pub is_unsigned: bool,
}

/// `inner` inside `wrapper<..>` where `wrapped` holds, else as it is.
pub open spec fn wrapped_in(wrapped: bool, wrapper: Seq<char>, inner: Seq<char>) -> Seq<char> {
    if wrapped {
        wrapper + "<"@ + inner + ">"@
    } else {
        inner
    }
}

/// How a column type is written: the name, inside `Unsigned<..>` if it is
/// unsigned, that inside `Array<..>` if it is an array, that inside
/// `Nullable<..>` if it is nullable.
pub open spec fn written(
    rust_name: Seq<char>,
    is_array: bool,
    is_nullable: bool,
    is_unsigned: bool,
) -> Seq<char> {
    wrapped_in(
        is_nullable,
        "Nullable"@,
        wrapped_in(is_array, "Array"@, wrapped_in(is_unsigned, "Unsigned"@, rust_name)),
    )
}

impl ColumnType {
    /// The type as the generated schema writes it.
    pub fn display(&self) -> (out: String)
        ensures
            out@ == written(self.rust_name@, self.is_array, self.is_nullable, self.is_unsigned),
    {
        let mut out = String::new();
        if self.is_nullable {
            out.append("Nullable<");
        }
        if self.is_array {
            out.append("Array<");
        }
        if self.is_unsigned {
            out.append("Unsigned<");
        }
        out.append(self.rust_name.as_str());
        if self.is_unsigned {
            out.append(">");
        }
        if self.is_array {
            out.append(">");
        }
        if self.is_nullable {
            out.append(">");
        }
        proof {
            reveal_strlit("Nullable<");
            reveal_strlit("Array<");
            reveal_strlit("Unsigned<");
            reveal_strlit("Nullable");
            reveal_strlit("Array");
            reveal_strlit("Unsigned");
            reveal_strlit("<");
            reveal_strlit(">");
            assert(out@ =~= written(
                self.rust_name@,
                self.is_array,
                self.is_nullable,
                self.is_unsigned,
            ));
        }
        out
    }
}

/// A column as the generated schema declares it.
#[derive(Debug)]
pub struct ColumnDefinition {
    pub sql_name: String,
    pub rust_name: String,
    pub ty: ColumnType,
    pub docs: String,
}

impl ColumnInformation {
    /// The description of the column `column_name` of type `data_type`.
    pub fn new(column_name: &str, data_type: &str, nullable: bool) -> (column: Self)
        ensures
            column.deep_view() == (ColumnInformationView {
                column_name: column_name@,
                data_type: data_type@,
                nullable,
            }),
    {
        ColumnInformation {
            column_name: String::from_str(column_name),
            data_type: String::from_str(data_type),
            nullable,
        }
    }
}

/// A backend whose catalogue is the standard information schema.
pub trait UsesInformationSchema: Backend {

}

impl UsesInformationSchema for Pg {

}

impl UsesInformationSchema for Mysql {

}

/// The column that a row of the information schema describes: its name, its
/// type, and whether it may be null, which the catalogue spells `YES`.
pub open spec fn column_of_catalogue(
    row: Outcome<(Seq<char>, Seq<char>, Seq<char>)>,
) -> Outcome<ColumnInformationView> {
    match row {
        Ok((column_name, data_type, is_nullable)) => Ok(
            ColumnInformationView { column_name, data_type, nullable: is_nullable == "YES"@ },
        ),
        Err(fault) => Err(fault),
    }
}

impl<SA, SB, SC, DB> FromSqlRow<Typed<(Typed<SA>, Typed<SB>, Typed<SC>)>, DB> for ColumnInformation where
    DB: Backend + UsesInformationSchema,
    String: FromSql<SA, DB> + FromSql<SB, DB> + FromSql<SC, DB>,
 {
    open spec fn built(fields: Seq<FieldView<DB>>) -> Outcome<ColumnInformationView> {
        column_of_catalogue(
            <(String, String, String) as FromSqlRow<
                Typed<(Typed<SA>, Typed<SB>, Typed<SC>)>,
                DB,
            >>::built(fields),
        )
    }

    open spec fn consumed(fields: Seq<FieldView<DB>>) -> nat {
        <(String, String, String) as FromSqlRow<
            Typed<(Typed<SA>, Typed<SB>, Typed<SC>)>,
            DB,
        >>::consumed(fields)
    }

    open spec fn null_in(fields: Seq<FieldView<DB>>) -> bool {
        <(String, String, String) as FromSqlRow<
            Typed<(Typed<SA>, Typed<SB>, Typed<SC>)>,
            DB,
        >>::null_in(fields)
    }

    open spec fn probed(fields: Seq<FieldView<DB>>) -> nat {
        <(String, String, String) as FromSqlRow<
            Typed<(Typed<SA>, Typed<SB>, Typed<SC>)>,
            DB,
        >>::probed(fields)
    }

    proof fn lemma_within_row(fields: Seq<FieldView<DB>>) {
        <(String, String, String) as FromSqlRow<
            Typed<(Typed<SA>, Typed<SB>, Typed<SC>)>,
            DB,
        >>::lemma_within_row(fields);
    }

    fn build_from_row<'a, R: Row<'a, DB>>(row: &mut R) -> (result: Result<Self>) {
        let row = match <(String, String, String) as FromSqlRow<
            Typed<(Typed<SA>, Typed<SB>, Typed<SC>)>,
            DB,
        >>::build_from_row(row) {
            Ok(row) => row,
            Err(error) => {
                return Err(error);
            },
        };
        Ok(ColumnInformation::new(row.0.as_str(), row.1.as_str(), str_eq(row.2.as_str(), "YES")))
    }

    fn is_null<'a, R: Row<'a, DB>>(row: &mut R) -> (null: bool) {
        <(String, String, String) as FromSqlRow<
            Typed<(Typed<SA>, Typed<SB>, Typed<SC>)>,
            DB,
        >>::is_null(row)
    }
}

/// The SQL type of a row of the in-process backend's table description: the
/// column's index, name and type, whether it is declared not null, its
/// default, and whether it is part of the primary key.
pub type TableInfoRow = Typed<
    (Typed<Integer>, Typed<Text>, Typed<Text>, Typed<Bool>, Typed<Nullable<Text>>, Typed<Bool>),
>;

/// The column that a row of the table description describes: its name, its
/// type, and whether it may be null, which is when it is not declared not
/// null.
pub open spec fn column_of_table_info(
    row: Outcome<(i32, Seq<char>, Seq<char>, bool, Option<Seq<char>>, bool)>,
) -> Outcome<ColumnInformationView> {
    match row {
        Ok((_, column_name, data_type, not_null, _, _)) => Ok(
            ColumnInformationView { column_name, data_type, nullable: !not_null },
        ),
        Err(fault) => Err(fault),
    }
}

impl FromSqlRow<TableInfoRow, Sqlite> for ColumnInformation {
    open spec fn built(fields: Seq<FieldView<Sqlite>>) -> Outcome<ColumnInformationView> {
        column_of_table_info(
            <(i32, String, String, bool, Option<String>, bool) as FromSqlRow<
                TableInfoRow,
                Sqlite,
            >>::built(fields),
        )
    }

    open spec fn consumed(fields: Seq<FieldView<Sqlite>>) -> nat {
        <(i32, String, String, bool, Option<String>, bool) as FromSqlRow<
            TableInfoRow,
            Sqlite,
        >>::consumed(fields)
    }

    open spec fn null_in(fields: Seq<FieldView<Sqlite>>) -> bool {
        <(i32, String, String, bool, Option<String>, bool) as FromSqlRow<
            TableInfoRow,
            Sqlite,
        >>::null_in(fields)
    }

    open spec fn probed(fields: Seq<FieldView<Sqlite>>) -> nat {
        <(i32, String, String, bool, Option<String>, bool) as FromSqlRow<
            TableInfoRow,
            Sqlite,
        >>::probed(fields)
    }

    proof fn lemma_within_row(fields: Seq<FieldView<Sqlite>>) {
        <(i32, String, String, bool, Option<String>, bool) as FromSqlRow<
            TableInfoRow,
            Sqlite,
        >>::lemma_within_row(fields);
    }

    fn build_from_row<'a, R: Row<'a, Sqlite>>(row: &mut R) -> (result: Result<Self>) {
        let row = match <(i32, String, String, bool, Option<String>, bool) as FromSqlRow<
            TableInfoRow,
            Sqlite,
        >>::build_from_row(row) {
            Ok(row) => row,
            Err(error) => {
                return Err(error);
            },
        };
        Ok(ColumnInformation::new(row.1.as_str(), row.2.as_str(), !row.3))
    }

    fn is_null<'a, R: Row<'a, Sqlite>>(row: &mut R) -> (null: bool) {
        <(i32, String, String, bool, Option<String>, bool) as FromSqlRow<
            TableInfoRow,
            Sqlite,
        >>::is_null(row)
    }
}

/// A foreign key: the column `foreign_key` of `child_table` refers to the
/// column `primary_key` of `parent_table`.
#[derive(Debug, Clone, PartialEq, Eq, PartialOrd, Ord)]
pub struct ForeignKeyConstraint {
    pub child_table: TableName,
    pub parent_table: TableName,
    pub foreign_key: String,
    pub foreign_key_rust_name: String,
    pub primary_key: String,
}

impl ForeignKeyConstraint {
    /// The two tables of the key, the one that comes first in the order of
    /// table names in front. Where neither comes first the parent is in
    /// front.
    pub fn ordered_tables(&self) -> (tables: (&TableName, &TableName))
        ensures
            tables == (if table_order(self.parent_table.deep_view(), self.child_table.deep_view())
                == Order::Greater {
                (&self.child_table, &self.parent_table)
            } else {
                (&self.parent_table, &self.child_table)
            }),
    {
        match self.parent_table.order(&self.child_table) {
            Order::Greater => (&self.child_table, &self.parent_table),
            _ => (&self.parent_table, &self.child_table),
        }
    }
}

} // verus!
