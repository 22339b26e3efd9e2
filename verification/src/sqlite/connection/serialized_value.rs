//! The result of a registered function, ready to be handed to the engine, and
//! what the engine makes of it.

use vstd::prelude::*;
use crate::backend::Wire;
use crate::codec::{be_i32, be_i64, read_i32_be, read_i64_be, read_text, text_of};
use crate::sqlite::backend::{argument_value, RawArgument, Sqlite, SqliteType, SqliteValueView};

verus! {

/// A value on its way to the engine: the storage class to hand it over
/// under, and its bytes, absent for NULL.
#[derive(Debug, PartialEq, Eq)]
pub struct SerializedValue {
    pub ty: SqliteType,
    pub data: Option<Vec<u8>>,
}

/// The value that the engine holds once it was handed `bytes` under the
/// storage class `ty`: an integer read from four or eight bytes, most
/// significant first, a text read from UTF-8, or the bytes themselves. Bytes
/// that do not spell a value of the storage class are held as they are.
pub open spec fn engine_value(ty: SqliteType, bytes: Seq<u8>) -> SqliteValueView {
    match ty {
        SqliteType::Integer => if bytes.len() == 4 {
            SqliteValueView::Integer(be_i32(bytes) as i64)
        } else {
            SqliteValueView::Blob(bytes)
        },
        SqliteType::Long => if bytes.len() == 8 {
            SqliteValueView::Integer(be_i64(bytes) as i64)
        } else {
            SqliteValueView::Blob(bytes)
        },
        SqliteType::Text => match text_of(bytes) {
            Some(text) => SqliteValueView::Text(text),
            None => SqliteValueView::Blob(bytes),
        },
        SqliteType::Binary => SqliteValueView::Blob(bytes),
    }
}

/// What the engine holds once it was handed a value: nothing for NULL.
pub open spec fn engine_holds(ty: SqliteType, data: Option<Seq<u8>>) -> Option<SqliteValueView> {
    match data {
        Some(bytes) => Some(engine_value(ty, bytes)),
        None => None,
    }
}

impl SerializedValue {
    /// The bytes of the value, absent for NULL.
    pub open spec fn bytes(&self) -> Option<Seq<u8>> {
        match self.data {
            Some(bytes) => Some(bytes@),
            None => None,
        }
    }

    /// The value as the engine hands it on, to the next function that takes
    /// it as an argument.
    pub fn as_argument(&self) -> (arg: RawArgument<'_>)
        ensures
            argument_value(arg) == engine_holds(self.ty, self.bytes()),
    {
        match &self.data {
            None => RawArgument::Null,
            Some(bytes) => {
                let bytes = bytes.as_slice();
                match self.ty {
                    SqliteType::Integer => if bytes.len() == 4 {
                        RawArgument::Integer(read_i32_be(bytes) as i64)
                    } else {
                        RawArgument::Blob(bytes)
                    },
                    SqliteType::Long => if bytes.len() == 8 {
                        RawArgument::Integer(read_i64_be(bytes))
                    } else {
                        RawArgument::Blob(bytes)
                    },
                    SqliteType::Text => match read_text(bytes) {
                        Some(text) => RawArgument::Text(text),
                        None => RawArgument::Blob(bytes),
                    },
                    SqliteType::Binary => RawArgument::Blob(bytes),
                }
            },
        }
    }
}

impl Wire for Sqlite {
    /// The engine hands back the value that it made of the bytes.
    open spec fn received(ty: SqliteType, bytes: Seq<u8>, raw: SqliteValueView) -> bool {
        raw == engine_value(ty, bytes)
    }
}

} // verus!
