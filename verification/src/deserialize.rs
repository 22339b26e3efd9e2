//! Conversion of raw column values into application values: one column at a
//! time (`FromSql`) and one record at a time (`FromSqlRow`).

use vstd::prelude::*;
use vstd::string::StringExecFns;
use crate::backend::{raw_model, Backend, HasRowMetadata, RawModel, TypeMetadata};
use crate::row::{Field, FieldView, Row};
use crate::sql_types::{Typed, Untyped};

verus! {

/// Why the bytes of a column could not be read as the requested type.
#[derive(Debug, Clone, Copy, PartialEq, Eq, Structural)]
pub enum Cause {
    /// The value has a length the type cannot have.
    WrongLength,
    /// The value is not valid UTF-8.
    InvalidUtf8,
    /// The value is none of those the type knows.
    UnrecognizedValue,
    /// The backend tagged the value with a type the conversion does not read.
    WrongType,
}

/// Why a value could not be built from a row.
#[derive(Debug, PartialEq, Eq)]
pub enum DeserializeError {
    /// A column that must hold a value held SQL NULL.
    UnexpectedNull,
    /// The row ended before the value had all its columns.
    UnexpectedEndOfRow,
    /// The named column was looked for by name and is not in the row.
    MissingColumn(String),
    /// The bytes of a column do not encode a value of the requested type.
    Malformed(Cause),
}

/// A `DeserializeError` as a mathematical value.
pub enum DeserializeFault {
    UnexpectedNull,
    UnexpectedEndOfRow,
    MissingColumn(Seq<char>),
    Malformed(Cause),
}

impl View for DeserializeError {
    type V = DeserializeFault;

    open spec fn view(&self) -> DeserializeFault {
        match self {
            DeserializeError::UnexpectedNull => DeserializeFault::UnexpectedNull,
            DeserializeError::UnexpectedEndOfRow => DeserializeFault::UnexpectedEndOfRow,
            DeserializeError::MissingColumn(name) => DeserializeFault::MissingColumn(name@),
            DeserializeError::Malformed(cause) => DeserializeFault::Malformed(*cause),
        }
    }
}

/// What a cause says in an error message.
pub open spec fn cause_text(cause: Cause) -> Seq<char> {
    match cause {
        Cause::WrongLength => "Received a value of the wrong length"@,
        Cause::InvalidUtf8 => "Received text that is not valid UTF-8"@,
        Cause::UnrecognizedValue => "Received a value that the type does not have"@,
        Cause::WrongType => "Received a value of another type"@,
    }
}

/// What an error says in an error message.
pub open spec fn fault_text(fault: DeserializeFault) -> Seq<char> {
    match fault {
        DeserializeFault::UnexpectedNull => "Unexpected null for non-null column"@,
        DeserializeFault::UnexpectedEndOfRow => "Unexpected end of row"@,
        DeserializeFault::MissingColumn(name) => "Column `"@ + name + "` was not present in query"@,
        DeserializeFault::Malformed(cause) => cause_text(cause),
    }
}

impl Cause {
    /// The cause as a message.
    pub fn message(&self) -> (text: &'static str)
        ensures
            text@ == cause_text(*self),
    {
        match self {
            Cause::WrongLength => "Received a value of the wrong length",
            Cause::InvalidUtf8 => "Received text that is not valid UTF-8",
            Cause::UnrecognizedValue => "Received a value that the type does not have",
            Cause::WrongType => "Received a value of another type",
        }
    }
}

impl DeserializeError {
    /// The error as a message.
    pub fn message(&self) -> (text: String)
        ensures
            text@ == fault_text(self@),
    {
        match self {
            DeserializeError::UnexpectedNull => "Unexpected null for non-null column".to_owned(),
            DeserializeError::UnexpectedEndOfRow => "Unexpected end of row".to_owned(),
            DeserializeError::MissingColumn(name) => {
                let mut text = "Column `".to_owned();
                text.append(name.as_str());
                text.append("` was not present in query");
                text
            },
            DeserializeError::Malformed(cause) => cause.message().to_owned(),
        }
    }
}

/// The result of a deserialization.
pub type Result<T> = core::result::Result<T, DeserializeError>;

/// What a deserialization yields, as a mathematical value.
pub type Outcome<V> = core::result::Result<V, DeserializeFault>;

/// The outcome that a result stands for.
pub open spec fn outcome<T: DeepView>(result: Result<T>) -> Outcome<T::V> {
    match result {
        Ok(value) => Ok(value.deep_view()),
        Err(error) => Err(error@),
    }
}

/// Deserialize a single field of SQL type `A` on backend `DB`.
///
/// An implementation says in `decode` and `decode_null` what it makes of a
/// raw value and of SQL NULL; the two conversions are held to that.
pub trait FromSql<A, DB: Backend>: Sized + DeepView {
    /// What a raw value decodes to.
    spec fn decode(raw: RawModel<DB>) -> Outcome<Self::V>;

    /// What SQL NULL decodes to.
    spec fn decode_null() -> Outcome<Self::V>;

    /// Decodes a non-null raw value.
    fn from_sql(bytes: DB::RawValue<'_>) -> (result: Result<Self>)
        ensures
            outcome(result) == Self::decode(bytes@),
    ;

    /// Decodes a raw value that may be SQL NULL. A type that cannot stand for
    /// an absent value hands a present one to `from_sql` and answers NULL with
    /// `UnexpectedNull`.
    fn from_nullable_sql(bytes: Option<DB::RawValue<'_>>) -> (result: Result<Self>)
        ensures
            bytes matches Some(raw) ==> outcome(result) == Self::decode(raw@),
            bytes is None ==> outcome(result) == Self::decode_null(),
    ;
}

/// A type that stands for a value and never for the absence of one: read
/// from SQL NULL, it fails with `UnexpectedNull`.
pub trait RejectsNull<A, DB: Backend>: FromSql<A, DB> {
    /// SQL NULL decodes to the error `UnexpectedNull`.
    proof fn lemma_null_is_rejected()
        ensures
            Self::decode_null() == Outcome::<Self::V>::Err(DeserializeFault::UnexpectedNull),
    ;
}

/// The records that a query of this SQL type may be read as.
pub trait IsCompatibleType<DB: TypeMetadata> {
    type Compatible;

    /// The descriptions of the record's columns; `None` where the SQL type
    /// does not fix them.
    spec fn row_metadata() -> Option<Seq<DB::TypeMetadata>>;

    /// The descriptions of the record's columns, for a statement whose
    /// output buffers are bound before it runs; `None` where the SQL type
    /// does not fix them.
    fn mysql_row_metadata(lookup: &DB::MetadataLookup) -> (types: Option<Vec<DB::TypeMetadata>>)
        ensures
            types is Some <==> Self::row_metadata() is Some,
            types matches Some(found) ==> Self::row_metadata() == Some(found@),
    ;
}

/// Any typed row with the same SQL type is compatible.
impl<ST, DB> IsCompatibleType<DB> for Typed<ST> where DB: Backend + HasRowMetadata<ST> {
    type Compatible = Typed<ST>;

    open spec fn row_metadata() -> Option<Seq<DB::TypeMetadata>> {
        Some(<DB as HasRowMetadata<ST>>::row_types())
    }

    fn mysql_row_metadata(lookup: &DB::MetadataLookup) -> (types: Option<Vec<DB::TypeMetadata>>) {
        let mut out: Vec<DB::TypeMetadata> = Vec::new();
        <DB as HasRowMetadata<ST>>::mysql_row_metadata(&mut out, lookup);
        assert(out@ =~= <DB as HasRowMetadata<ST>>::row_types());
        Some(out)
    }
}

/// Any untyped row is compatible.
impl<DB> IsCompatibleType<DB> for Untyped where DB: Backend + TypeMetadata {
    type Compatible = Untyped;

    open spec fn row_metadata() -> Option<Seq<DB::TypeMetadata>> {
        None
    }

    fn mysql_row_metadata(_lookup: &DB::MetadataLookup) -> (types: Option<Vec<DB::TypeMetadata>>) {
        None
    }
}

/// Deserialize one or more fields: build one value from the columns at the
/// front of a row.
///
/// An implementation says in `built` what it makes of the columns it is given
/// and in `consumed` how many of them it moves past, and likewise in `null_in`
/// and `probed` for the null check; the two operations are held to that.
pub trait FromSqlRow<ST, DB: Backend>: Sized + DeepView {
    /// What is built from the columns `fields`.
    spec fn built(fields: Seq<FieldView<DB>>) -> Outcome<Self::V>;

    /// How many columns of `fields` building moves past, whether or not it
    /// succeeds.
    spec fn consumed(fields: Seq<FieldView<DB>>) -> nat;

    /// Whether the value that the columns `fields` stand for is null.
    spec fn null_in(fields: Seq<FieldView<DB>>) -> bool;

    /// How many columns of `fields` the null check moves past.
    spec fn probed(fields: Seq<FieldView<DB>>) -> nat;

    /// Neither operation moves past the end of the row.
    proof fn lemma_within_row(fields: Seq<FieldView<DB>>)
        ensures
            Self::consumed(fields) <= fields.len(),
            Self::probed(fields) <= fields.len(),
    ;

    /// Builds a value from the columns at the front of `row` and leaves the
    /// cursor behind the columns it read.
    fn build_from_row<'a, R: Row<'a, DB>>(row: &mut R) -> (result: Result<Self>)
        ensures
            outcome(result) == Self::built(old(row).remaining()),
            final(row).remaining() == old(row).remaining().skip(
                Self::consumed(old(row).remaining()) as int,
            ),
    ;

    /// Reports whether the value at the front of `row` is null and leaves the
    /// cursor behind the columns it looked at.
    fn is_null<'a, R: Row<'a, DB>>(row: &mut R) -> (null: bool)
        ensures
            null == Self::null_in(old(row).remaining()),
            final(row).remaining() == old(row).remaining().skip(
                Self::probed(old(row).remaining()) as int,
            ),
    ;
}

/// A row type that always spans the same number of columns, so that a caller
/// can reserve that many slots before any row is fetched.
pub trait StaticallySizedRow<ST, DB: Backend>: FromSqlRow<ST, DB> {
    /// The number of fields that this type consumes.
    const FIELD_COUNT: usize = 1;

    /// The number of fields that this type consumes, as a mathematical value.
    spec fn field_count() -> nat;

    /// `FIELD_COUNT` is the field count wherever that fits the machine.
    proof fn lemma_field_count()
        ensures
            Self::field_count() <= usize::MAX ==> Self::FIELD_COUNT == Self::field_count(),
    ;

    /// On a row that has enough columns, a successful build and the null check
    /// both move past exactly `field_count()` columns.
    proof fn lemma_fixed_width(fields: Seq<FieldView<DB>>)
        requires
            fields.len() >= Self::field_count(),
        ensures
            Self::built(fields) is Ok ==> Self::consumed(fields) == Self::field_count(),
            Self::probed(fields) == Self::field_count(),
    ;
}

/// A statically sized row that is built from a row with enough columns
/// leaves the cursor exactly `FIELD_COUNT` columns further on.
pub proof fn lemma_build_takes_field_count<ST, DB: Backend, T: StaticallySizedRow<ST, DB>>(
    fields: Seq<FieldView<DB>>,
)
    requires
        T::field_count() <= fields.len() <= usize::MAX,
        T::built(fields) is Ok,
    ensures
        T::consumed(fields) == T::FIELD_COUNT,
        fields.skip(T::consumed(fields) as int).len() == fields.len() - T::FIELD_COUNT,
{
    T::lemma_field_count();
    T::lemma_fixed_width(fields);
}

} // verus!
