//! The backend marker, the type descriptor and the raw value of the
//! pre-bound-buffer backend.

use vstd::prelude::*;
use crate::backend::{Backend, TypeMetadata, Wire};

verus! {

/// The pre-bound-buffer backend.
pub struct Mysql;

/// The type under which the driver binds or returns a value.
#[derive(Debug, Clone, Copy, PartialEq, Eq, Structural)]
pub enum MysqlType {
    Tiny,
    Short,
    Long,
    LongLong,
    Time,
    Date,
    DateTime,
    Timestamp,
    String,
    Blob,
}

/// The raw value of one column: the bytes that the driver wrote into the
/// column's buffer, and the type that the buffer was bound under.
pub struct MysqlValue<'a> {
    raw: &'a [u8],
    tpe: MysqlType,
}

/// A `MysqlValue` as a mathematical value.
pub struct MysqlValueView {
    pub bytes: Seq<u8>,
    pub tpe: MysqlType,
}

impl<'a> View for MysqlValue<'a> {
    type V = MysqlValueView;

    closed spec fn view(&self) -> MysqlValueView {
        MysqlValueView { bytes: self.raw@, tpe: self.tpe }
    }
}

impl<'a> MysqlValue<'a> {
    /// A raw value made of `raw` and the type it was bound under.
    pub fn new(raw: &'a [u8], tpe: MysqlType) -> (value: Self)
        ensures
            value@ == (MysqlValueView { bytes: raw@, tpe }),
    {
        MysqlValue { raw, tpe }
    }

    /// The bytes of the value.
    pub fn as_bytes(&self) -> (bytes: &'a [u8])
        ensures
            bytes@ == self@.bytes,
    {
        self.raw
    }

    /// The type that the value was bound under.
    pub fn value_type(&self) -> (tpe: MysqlType)
        ensures
            tpe == self@.tpe,
    {
        self.tpe
    }
}

impl Backend for Mysql {
    type RawValue<'a> = MysqlValue<'a>;
}

impl TypeMetadata for Mysql {
    type TypeMetadata = MysqlType;

    type MetadataLookup = ();
}

impl Wire for Mysql {
    /// The driver hands back the bytes as they were sent, in a buffer bound
    /// under the type.
    open spec fn received(ty: MysqlType, bytes: Seq<u8>, raw: MysqlValueView) -> bool {
        raw == (MysqlValueView { bytes, tpe: ty })
    }
}

} // verus!
