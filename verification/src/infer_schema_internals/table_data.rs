//! The name of a table, and what inference collects about a table.

use vstd::prelude::*;
use vstd::string::{StrSliceExecFns, StringExecFns};
use core::str::FromStr;
use crate::backend::Backend;
use crate::codec::str_eq;
use crate::deserialize::{FromSql, FromSqlRow, Outcome, Result, StaticallySizedRow};
use crate::infer_schema_internals::data_structures::ColumnDefinition;
use crate::infer_schema_internals::inference::{rust_name_for_sql_name, rust_name_of};
use crate::infer_schema_internals::text_order::{
    optional_text_order, order_of_optional_text, order_of_text, text_order, Order,
};
use crate::row::{FieldView, Row};
use crate::sql_types::Typed;

verus! {

/// The name of a table: as the database knows it, as Rust code calls it, and
/// the schema it lives in where that is not the default one.
#[derive(Debug, Clone, PartialEq, Eq, PartialOrd, Ord)]
pub struct TableName {
    pub sql_name: String,
    pub rust_name: String,
    pub schema: Option<String>,
}

/// A `TableName` as a mathematical value.
pub struct TableNameView {
    pub sql_name: Seq<char>,
    pub rust_name: Seq<char>,
    pub schema: Option<Seq<char>>,
}

impl DeepView for TableName {
    type V = TableNameView;

    open spec fn deep_view(&self) -> TableNameView {
        TableNameView {
            sql_name: self.sql_name@,
            rust_name: self.rust_name@,
            schema: match self.schema {
                Some(schema) => Some(schema@),
                None => None,
            },
        }
    }
}

/// The name of the table `name` in the default schema.
pub open spec fn unqualified(name: Seq<char>) -> TableNameView {
    TableNameView { sql_name: name, rust_name: rust_name_of(name), schema: None }
}

/// The name of the table `name` in the schema `schema`.
pub open spec fn qualified(name: Seq<char>, schema: Seq<char>) -> TableNameView {
    TableNameView { sql_name: name, rust_name: rust_name_of(name), schema: Some(schema) }
}

/// The index of the first dot in `text` from `from` on; the length of `text`
/// where there is none.
pub open spec fn first_dot(text: Seq<char>, from: int) -> int
    decreases text.len() - from,
{
    if from < 0 || from >= text.len() {
        text.len() as int
    } else if text[from] == '.' {
        from
    } else {
        first_dot(text, from + 1)
    }
}

/// The first dot is inside the text or at its end, and nothing before it is
/// a dot.
pub proof fn lemma_first_dot(text: Seq<char>, from: int)
    requires
        0 <= from <= text.len(),
    ensures
        from <= first_dot(text, from) <= text.len(),
        first_dot(text, from) < text.len() ==> text[first_dot(text, from)] == '.',
        forall|i: int| from <= i < first_dot(text, from) ==> text[i] != '.',
    decreases text.len() - from,
{
    if from < text.len() && text[from] != '.' {
        lemma_first_dot(text, from + 1);
    }
}

/// The table name that `text` spells. Without a dot the whole text names a
/// table in the default schema. With one, what stands before the first dot is
/// the schema and what stands behind it, up to the next dot, is the table.
pub open spec fn parsed(text: Seq<char>) -> TableNameView {
    let dot = first_dot(text, 0);
    if dot >= text.len() {
        unqualified(text)
    } else {
        qualified(text.subrange(dot + 1, first_dot(text, dot + 1)), text.subrange(0, dot))
    }
}

/// How one table name stands to another: by the SQL name, then the Rust
/// name, then the schema, texts by their bytes and no schema before any.
pub open spec fn table_order(a: TableNameView, b: TableNameView) -> Order {
    match text_order(a.sql_name, b.sql_name) {
        Order::Equal => match text_order(a.rust_name, b.rust_name) {
            Order::Equal => optional_text_order(a.schema, b.schema),
            decided => decided,
        },
        decided => decided,
    }
}

/// The index of the first dot in `text` from `from` on.
fn find_dot(text: &str, from: usize) -> (dot: usize)
    requires
        from <= text@.len(),
    ensures
        dot == first_dot(text@, from as int),
        from <= dot <= text@.len(),
{
    let len = text.unicode_len();
    let mut i: usize = from;
    while i < len
        invariant
            from <= i <= len,
            len == text@.len(),
            first_dot(text@, from as int) == first_dot(text@, i as int),
        decreases len - i,
    {
        if text.get_char(i) == '.' {
            return i;
        }
        i += 1;
    }
    i
}

impl TableName {
    /// The name of the table `name` in the default schema.
    pub fn from_name(name: &str) -> (table: Self)
        ensures
            table.deep_view() == unqualified(name@),
    {
        TableName {
            rust_name: rust_name_for_sql_name(name),
            sql_name: name.to_owned(),
            schema: None,
        }
    }

    /// The name of the table `name` in the schema `schema`.
    pub fn new(name: &str, schema: &str) -> (table: Self)
        ensures
            table.deep_view() == qualified(name@, schema@),
    {
        TableName {
            rust_name: rust_name_for_sql_name(name),
            sql_name: name.to_owned(),
            schema: Some(schema.to_owned()),
        }
    }

    /// Takes the schema off the name where it is `schema`.
    pub fn strip_schema_if_matches(&mut self, schema: &str)
        ensures
            final(self).sql_name@ == old(self).sql_name@,
            final(self).rust_name@ == old(self).rust_name@,
            final(self).deep_view().schema == (if old(self).deep_view().schema == Some(schema@) {
                None
            } else {
                old(self).deep_view().schema
            }),
    {
        let matches = match &self.schema {
            Some(own) => str_eq(own.as_str(), schema),
            None => false,
        };
        if matches {
            self.schema = None;
        }
    }

    /// The name as SQL spells it: the schema and a dot in front where there
    /// is a schema.
    pub fn full_sql_name(&self) -> (name: String)
        ensures
            name@ == (match self.deep_view().schema {
                Some(schema) => schema + "."@ + self.sql_name@,
                None => self.sql_name@,
            }),
    {
        match self.schema {
            Some(ref schema_name) => {
                let mut name = schema_name.clone();
                name.append(".");
                name.append(self.sql_name.as_str());
                name
            },
            None => self.sql_name.clone(),
        }
    }

    /// The name as Rust code spells it: the schema and a dot in front where
    /// there is a schema.
    pub fn display(&self) -> (name: String)
        ensures
            name@ == (match self.deep_view().schema {
                Some(schema) => schema + "."@ + self.rust_name@,
                None => self.rust_name@,
            }),
    {
        match self.schema {
            Some(ref schema_name) => {
                let mut name = schema_name.clone();
                name.append(".");
                name.append(self.rust_name.as_str());
                name
            },
            None => self.rust_name.clone(),
        }
    }

    /// The table name that `table_name` spells: `schema.table`, or `table`
    /// alone.
    pub fn parse(table_name: &str) -> (table: Self)
        ensures
            table.deep_view() == parsed(table_name@),
    {
        let len = table_name.unicode_len();
        let dot = find_dot(table_name, 0);
        if dot >= len {
            TableName::from_name(table_name)
        } else {
            let end = find_dot(table_name, dot + 1);
            let schema = table_name.substring_char(0, dot);
            let name = table_name.substring_char(dot + 1, end);
            TableName::new(name, schema)
        }
    }

    /// How this name stands to `other`.
    pub fn order(&self, other: &TableName) -> (order: Order)
        ensures
            order == table_order(self.deep_view(), other.deep_view()),
    {
        match order_of_text(self.sql_name.as_str(), other.sql_name.as_str()) {
            Order::Equal => match order_of_text(
                self.rust_name.as_str(),
                other.rust_name.as_str(),
            ) {
                Order::Equal => order_of_optional_text(&self.schema, &other.schema),
                decided => decided,
            },
            decided => decided,
        }
    }
}

/// The error of a parse that cannot fail. It has no value: to make one
/// would take a value of the empty type it holds.
#[derive(Debug)]
#[allow(missing_copy_implementations)]
pub struct Never(core::convert::Infallible);

impl FromStr for TableName {
    type Err = Never;

    fn from_str(table_name: &str) -> (table: core::result::Result<Self, Never>)
        ensures
            table matches Ok(name) && name.deep_view() == parsed(table_name@),
    {
        Ok(TableName::parse(table_name))
    }
}

/// What inference collects about a table.
#[derive(Debug)]
pub struct TableData {
    pub name: TableName,
    pub primary_key: Vec<String>,
    pub column_data: Vec<ColumnDefinition>,
    pub docs: String,
}

/// The table name that a pair of texts stands for: the first is the table,
/// the second the schema.
pub open spec fn table_of_pair(pair: Outcome<(Seq<char>, Seq<char>)>) -> Outcome<TableNameView> {
    match pair {
        Ok((name, schema)) => Ok(qualified(name, schema)),
        Err(fault) => Err(fault),
    }
}

impl<SA, SB, DB> FromSqlRow<Typed<(Typed<SA>, Typed<SB>)>, DB> for TableName where
    DB: Backend,
    String: FromSql<SA, DB> + FromSql<SB, DB>,
 {
    /// A table name is read as the pair of its name and its schema.
    open spec fn built(fields: Seq<FieldView<DB>>) -> Outcome<TableNameView> {
        table_of_pair(
            <(String, String) as FromSqlRow<Typed<(Typed<SA>, Typed<SB>)>, DB>>::built(fields),
        )
    }

    open spec fn consumed(fields: Seq<FieldView<DB>>) -> nat {
        <(String, String) as FromSqlRow<Typed<(Typed<SA>, Typed<SB>)>, DB>>::consumed(fields)
    }

    open spec fn null_in(fields: Seq<FieldView<DB>>) -> bool {
        <(String, String) as FromSqlRow<Typed<(Typed<SA>, Typed<SB>)>, DB>>::null_in(fields)
    }

    open spec fn probed(fields: Seq<FieldView<DB>>) -> nat {
        <(String, String) as FromSqlRow<Typed<(Typed<SA>, Typed<SB>)>, DB>>::probed(fields)
    }

    proof fn lemma_within_row(fields: Seq<FieldView<DB>>) {
        <(String, String) as FromSqlRow<Typed<(Typed<SA>, Typed<SB>)>, DB>>::lemma_within_row(
            fields,
        );
    }

    fn build_from_row<'a, R: Row<'a, DB>>(row: &mut R) -> (result: Result<Self>) {
        let (name, schema) = match <(String, String) as FromSqlRow<
            Typed<(Typed<SA>, Typed<SB>)>,
            DB,
        >>::build_from_row(row) {
            Ok(pair) => pair,
            Err(error) => {
                return Err(error);
            },
        };
        Ok(TableName::new(name.as_str(), schema.as_str()))
    }

    fn is_null<'a, R: Row<'a, DB>>(row: &mut R) -> (null: bool) {
        <(String, String) as FromSqlRow<Typed<(Typed<SA>, Typed<SB>)>, DB>>::is_null(row)
    }
}

impl<SA, SB, DB> StaticallySizedRow<Typed<(Typed<SA>, Typed<SB>)>, DB> for TableName where
    DB: Backend,
    String: FromSql<SA, DB> + FromSql<SB, DB>,
 {
    const FIELD_COUNT: usize = 2;

    open spec fn field_count() -> nat {
        2
    }

    proof fn lemma_field_count() {
    }

    proof fn lemma_fixed_width(fields: Seq<FieldView<DB>>) {
        <(String, String) as StaticallySizedRow<
            Typed<(Typed<SA>, Typed<SB>)>,
            DB,
        >>::lemma_fixed_width(fields);
    }
}

} // verus!
