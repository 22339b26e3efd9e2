//! What the code generators for record types decide before they write any
//! syntax: how the fields of a record are called, which column each is read
//! from, and where its SQL type comes from.

use vstd::prelude::*;
use vstd::string::StringExecFns;

verus! {

/// The name of a field: its identifier in a struct with named fields, its
/// index in a tuple struct.
#[derive(Debug, Clone, PartialEq, Eq)]
pub enum FieldName {
    Named(String),
    Unnamed(u32),
}

/// One field of a record type, as its declaration shows it.
#[derive(Debug, Clone, PartialEq, Eq)]
pub struct Field {
    /// The field's name.
    pub name: FieldName,
    /// The column declared for the field, where one is declared.
    pub column_name_from_attribute: Option<String>,
    /// The SQL type declared for the field, where one is declared.
    pub sql_type: Option<String>,
    /// Whether the field holds a record of its own rather than a column.
    pub embed: bool,
}

/// A record type, as its declaration shows it.
#[derive(Debug, Clone, PartialEq, Eq)]
pub struct Model {
    /// The table whose columns the fields are.
    pub table_name: String,
    /// Whether the table is declared on the type rather than guessed.
    pub has_table_name_attribute: bool,
    /// The fields, in the order of the declaration.
    pub fields: Vec<Field>,
}

/// Where the SQL type of a field comes from.
#[derive(Debug, Clone, PartialEq, Eq)]
pub enum SqlTypeSource {
    /// The field declares it.
    Declared(String),
    /// It is the type of `column` in `table`.
    OfColumn { table: String, column: String },
    /// Nothing says it; the message says so to the author of the type.
    Unknown { message: String },
}

/// What is generated for one field that is read from a column by name.
#[derive(Debug, Clone, PartialEq, Eq)]
pub struct MatchBlock {
    /// The variable that holds the field while the row is walked.
    pub field_name: String,
    /// The column that fills the field.
    pub column_name: String,
    /// Where the field's SQL type comes from.
    pub sql_type: SqlTypeSource,
}

/// A `FieldName` as a mathematical value.
pub enum FieldNameView {
    Named(Seq<char>),
    Unnamed(u32),
}

/// A `Field` as a mathematical value.
pub struct FieldView {
    pub name: FieldNameView,
    pub column_name_from_attribute: Option<Seq<char>>,
    pub sql_type: Option<Seq<char>>,
    pub embed: bool,
}

/// A `SqlTypeSource` as a mathematical value.
pub enum SqlTypeSourceView {
    Declared(Seq<char>),
    OfColumn { table: Seq<char>, column: Seq<char> },
    Unknown { message: Seq<char> },
}

/// A `MatchBlock` as a mathematical value.
pub struct MatchBlockView {
    pub field_name: Seq<char>,
    pub column_name: Seq<char>,
    pub sql_type: SqlTypeSourceView,
}

/// The text of an optional string.
pub open spec fn optional_text(text: Option<String>) -> Option<Seq<char>> {
    match text {
        Some(t) => Some(t@),
        None => None,
    }
}

impl View for FieldName {
    type V = FieldNameView;

    open spec fn view(&self) -> FieldNameView {
        match self {
            FieldName::Named(name) => FieldNameView::Named(name@),
            FieldName::Unnamed(index) => FieldNameView::Unnamed(*index),
        }
    }
}

impl View for Field {
    type V = FieldView;

    open spec fn view(&self) -> FieldView {
        FieldView {
            name: self.name@,
            column_name_from_attribute: optional_text(self.column_name_from_attribute),
            sql_type: optional_text(self.sql_type),
            embed: self.embed,
        }
    }
}

impl View for SqlTypeSource {
    type V = SqlTypeSourceView;

    open spec fn view(&self) -> SqlTypeSourceView {
        match self {
            SqlTypeSource::Declared(ty) => SqlTypeSourceView::Declared(ty@),
            SqlTypeSource::OfColumn { table, column } => SqlTypeSourceView::OfColumn {
                table: table@,
                column: column@,
            },
            SqlTypeSource::Unknown { message } => SqlTypeSourceView::Unknown { message: message@ },
        }
    }
}

impl View for MatchBlock {
    type V = MatchBlockView;

    open spec fn view(&self) -> MatchBlockView {
        MatchBlockView {
            field_name: self.field_name@,
            column_name: self.column_name@,
            sql_type: self.sql_type@,
        }
    }
}

/// The digit `d` as text.
pub open spec fn digit_text(d: nat) -> Seq<char> {
    if d == 0 {
        "0"@
    } else if d == 1 {
        "1"@
    } else if d == 2 {
        "2"@
    } else if d == 3 {
        "3"@
    } else if d == 4 {
        "4"@
    } else if d == 5 {
        "5"@
    } else if d == 6 {
        "6"@
    } else if d == 7 {
        "7"@
    } else if d == 8 {
        "8"@
    } else {
        "9"@
    }
}

/// The number `n` as decimal text, without leading zeros.
pub open spec fn decimal(n: nat) -> Seq<char>
    decreases n,
{
    if n < 10 {
        digit_text(n)
    } else {
        decimal(n / 10) + digit_text(n % 10)
    }
}

/// The identifier that stands for a field: its name, or `field_` and its
/// index.
pub open spec fn ident_of(name: FieldNameView) -> Seq<char> {
    match name {
        FieldNameView::Named(n) => n,
        FieldNameView::Unnamed(index) => "field_"@ + decimal(index as nat),
    }
}

/// The column that a field is read from: the one declared for it, else the
/// one called as the field.
pub open spec fn column_of(field: FieldView) -> Seq<char> {
    match field.column_name_from_attribute {
        Some(column) => column,
        None => ident_of(field.name),
    }
}

/// The name by which a message speaks of a field.
pub open spec fn spoken_name(name: FieldNameView) -> Seq<char> {
    match name {
        FieldNameView::Named(n) => n,
        FieldNameView::Unnamed(_) => "field"@,
    }
}

/// Where the SQL type of `field` comes from: from its own declaration; else,
/// where the table is declared, from the column in that table; else from
/// nowhere.
pub open spec fn sql_type_of(
    field: FieldView,
    table_name: Seq<char>,
    has_table_name_attribute: bool,
) -> SqlTypeSourceView {
    match field.sql_type {
        Some(ty) => SqlTypeSourceView::Declared(ty),
        None => if has_table_name_attribute {
            SqlTypeSourceView::OfColumn { table: table_name, column: column_of(field) }
        } else {
            SqlTypeSourceView::Unknown {
                message: "Cannot determine the SQL type of "@ + spoken_name(field.name),
            }
        },
    }
}

/// What is generated for `field`.
pub open spec fn match_block_of(
    field: FieldView,
    table_name: Seq<char>,
    has_table_name_attribute: bool,
) -> MatchBlockView {
    MatchBlockView {
        field_name: ident_of(field.name),
        column_name: column_of(field),
        sql_type: sql_type_of(field, table_name, has_table_name_attribute),
    }
}

/// The match blocks of the first `upto` of `fields`: one for each field that
/// is read from a column, in order.
pub open spec fn match_blocks_of(
    fields: Seq<FieldView>,
    table_name: Seq<char>,
    has_table_name_attribute: bool,
    upto: int,
) -> Seq<MatchBlockView>
    decreases upto,
{
    if upto <= 0 {
        Seq::empty()
    } else {
        let before = match_blocks_of(fields, table_name, has_table_name_attribute, upto - 1);
        if fields[upto - 1].embed {
            before
        } else {
            before.push(match_block_of(fields[upto - 1], table_name, has_table_name_attribute))
        }
    }
}

/// The views of the fields of a model.
pub open spec fn field_views(fields: Seq<Field>) -> Seq<FieldView> {
    Seq::new(fields.len(), |i: int| fields[i]@)
}

/// The views of match blocks.
pub open spec fn match_block_views(blocks: Seq<MatchBlock>) -> Seq<MatchBlockView> {
    Seq::new(blocks.len(), |i: int| blocks[i]@)
}

/// The digit `d` as text.
fn digit(d: u32) -> (text: &'static str)
    requires
        d < 10,
    ensures
        text@ == digit_text(d as nat),
{
    if d == 0 {
        "0"
    } else if d == 1 {
        "1"
    } else if d == 2 {
        "2"
    } else if d == 3 {
        "3"
    } else if d == 4 {
        "4"
    } else if d == 5 {
        "5"
    } else if d == 6 {
        "6"
    } else if d == 7 {
        "7"
    } else if d == 8 {
        "8"
    } else {
        "9"
    }
}

/// The number `n` as decimal text.
pub fn decimal_string(n: u32) -> (text: String)
    ensures
        text@ == decimal(n as nat),
    decreases n,
{
    if n < 10 {
        digit(n).to_owned()
    } else {
        let mut text = decimal_string(n / 10);
        text.append(digit(n % 10));
        text
    }
}

/// The identifier that stands for `field` in generated code.
pub fn get_ident(field: &Field) -> (ident: String)
    ensures
        ident@ == ident_of(field@.name),
{
    match &field.name {
        FieldName::Named(n) => n.clone(),
        FieldName::Unnamed(i) => {
            let mut ident = "field_".to_owned();
            let index = decimal_string(*i);
            ident.append(index.as_str());
            ident
        },
    }
}

/// The column that `field` is read from.
pub fn column_name(field: &Field) -> (column: String)
    ensures
        column@ == column_of(field@),
{
    match &field.column_name_from_attribute {
        Some(column) => column.clone(),
        None => get_ident(field),
    }
}

/// Where the SQL type of `field` comes from.
pub fn sql_type(field: &Field, model: &Model) -> (source: SqlTypeSource)
    ensures
        source@ == sql_type_of(field@, model.table_name@, model.has_table_name_attribute),
{
    match field.sql_type {
        Some(ref st) => SqlTypeSource::Declared(st.clone()),
        None => {
            if model.has_table_name_attribute {
                SqlTypeSource::OfColumn {
                    table: model.table_name.clone(),
                    column: column_name(field),
                }
            } else {
                let mut message = "Cannot determine the SQL type of ".to_owned();
                match field.name {
                    FieldName::Named(ref x) => message.append(x.as_str()),
                    _ => message.append("field"),
                }
                SqlTypeSource::Unknown { message }
            }
        },
    }
}

/// What is generated for `field`.
pub fn match_block(field: &Field, model: &Model) -> (block: MatchBlock)
    ensures
        block@ == match_block_of(field@, model.table_name@, model.has_table_name_attribute),
{
    MatchBlock {
        field_name: get_ident(field),
        column_name: column_name(field),
        sql_type: sql_type(field, model),
    }
}

/// The match blocks of a record that is read by name: one for each field
/// that is read from a column, in the order of the declaration.
pub fn match_blocks(model: &Model) -> (blocks: Vec<MatchBlock>)
    ensures
        match_block_views(blocks@) == match_blocks_of(
            field_views(model.fields@),
            model.table_name@,
            model.has_table_name_attribute,
            model.fields@.len() as int,
        ),
{
    let mut blocks: Vec<MatchBlock> = Vec::new();
    let mut i: usize = 0;
    while i < model.fields.len()
        invariant
            i <= model.fields@.len(),
            match_block_views(blocks@) == match_blocks_of(
                field_views(model.fields@),
                model.table_name@,
                model.has_table_name_attribute,
                i as int,
            ),
        decreases model.fields@.len() - i,
    {
        let ghost before = match_block_views(blocks@);
        if !model.fields[i].embed {
            let block = match_block(&model.fields[i], model);
            blocks.push(block);
            assert(match_block_views(blocks@) =~= before.push(block@));
        }
        i += 1;
    }
    blocks
}

} // verus!
