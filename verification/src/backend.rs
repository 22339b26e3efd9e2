//! What a database backend must supply to take part in deserialization.

use vstd::prelude::*;

verus! {

/// A database backend, named by a marker type.
///
/// The only thing the conversions need from a backend is the shape of the raw
/// value it hands out for one column: the bytes together with whatever type
/// descriptor the backend attaches to them. The view of a raw value is the
/// mathematical value that contracts speak of.
pub trait Backend: Sized {
    /// The raw representation of one non-null column value, borrowed from the
    /// backend's result for `'a`.
    type RawValue<'a>: View;
}

/// A backend that describes SQL types to its driver.
pub trait TypeMetadata: Backend {
    /// What the driver needs to know of a SQL type to bind or read a value.
    type TypeMetadata;

    /// What looking up a type's description needs; `()` where the
    /// descriptions are fixed.
    type MetadataLookup;
}

/// The backend knows the single-column SQL type `ST`.
pub trait HasSqlType<ST>: TypeMetadata {
    /// The description of `ST`.
    spec fn type_of() -> Self::TypeMetadata;

    /// Looks up the description of `ST`.
    fn metadata(lookup: &Self::MetadataLookup) -> (metadata: Self::TypeMetadata)
        ensures
            metadata == Self::type_of(),
    ;
}

/// The backend can describe every column of a record of SQL type `ST`. A
/// single-column type is a record of one column.
pub trait HasRowMetadata<ST>: TypeMetadata {
    /// The descriptions of the record's columns, in order.
    spec fn row_types() -> Seq<Self::TypeMetadata>;

    /// Appends the descriptions of the record's columns to `out`.
    fn mysql_row_metadata(out: &mut Vec<Self::TypeMetadata>, lookup: &Self::MetadataLookup)
        ensures
            final(out)@ == old(out)@ + Self::row_types(),
    ;
}

/// A backend that says in which raw value it hands back bytes sent to it.
pub trait Wire: TypeMetadata {
    /// `raw` is what the backend hands back for a value that was sent as
    /// `bytes` under the type description `ty`.
    spec fn received(ty: Self::TypeMetadata, bytes: Seq<u8>, raw: RawModel<Self>) -> bool;
}

/// The mathematical content of a raw value of backend `DB`.
pub type RawModel<DB> = <<DB as Backend>::RawValue<'static> as View>::V;

/// The content of an optional raw value; `None` stands for SQL NULL.
pub open spec fn raw_model<DB: Backend>(raw: Option<DB::RawValue<'static>>) -> Option<RawModel<DB>> {
    match raw {
        Some(value) => Some(value@),
        None => None,
    }
}

} // verus!
