//! The backend marker and the raw value of the binary protocol.

use vstd::prelude::*;
use crate::backend::{Backend, TypeMetadata, Wire};

verus! {

/// The binary-protocol backend.
pub struct Pg;

/// The raw value of one column: the bytes as the server sent them in binary
/// format, and the object id of the column's type.
pub struct PgValue<'a> {
    raw_value: &'a [u8],
    type_oid: u32,
}

/// A `PgValue` as a mathematical value.
pub struct PgValueView {
    pub bytes: Seq<u8>,
    pub type_oid: u32,
}

impl<'a> View for PgValue<'a> {
    type V = PgValueView;

    closed spec fn view(&self) -> PgValueView {
        PgValueView { bytes: self.raw_value@, type_oid: self.type_oid }
    }
}

impl<'a> PgValue<'a> {
    /// A raw value made of `raw_value` and the type's object id.
    pub fn new(raw_value: &'a [u8], type_oid: u32) -> (value: Self)
        ensures
            value@ == (PgValueView { bytes: raw_value@, type_oid }),
    {
        PgValue { raw_value, type_oid }
    }

    /// The bytes of the value.
    pub fn as_bytes(&self) -> (bytes: &'a [u8])
        ensures
            bytes@ == self@.bytes,
    {
        self.raw_value
    }

    /// The object id of the value's type.
    pub fn get_oid(&self) -> (oid: u32)
        ensures
            oid == self@.type_oid,
    {
        self.type_oid
    }
}

impl Backend for Pg {
    type RawValue<'a> = PgValue<'a>;
}

/// What the server needs to know of a SQL type: its object id.
#[derive(Debug, Clone, Copy, PartialEq, Eq, Structural)]
pub struct PgTypeMetadata {
    pub oid: u32,
}

impl TypeMetadata for Pg {
    type TypeMetadata = PgTypeMetadata;

    type MetadataLookup = ();
}

impl Wire for Pg {
    /// The server hands back the bytes as they were sent, tagged with the
    /// object id of the type.
    open spec fn received(ty: PgTypeMetadata, bytes: Seq<u8>, raw: PgValueView) -> bool {
        raw == (PgValueView { bytes, type_oid: ty.oid })
    }
}

} // verus!
