//! The scalar conversions of the in-process backend.

use vstd::prelude::*;
use crate::codec::{i32_be, i64_be, write_i32_be, write_i64_be};
use crate::round_trip::RoundTrip;
use crate::deserialize::{Cause, DeserializeError, DeserializeFault, FromSql, Outcome, Result, RejectsNull};
use crate::serialize::{write_value, Encoding, Output, ToSql};
use crate::sql_types::{BigInt, Bool, Integer, Text};
use crate::sqlite::backend::{Sqlite, SqliteValue, SqliteValueView};

verus! {

impl FromSql<BigInt, Sqlite> for i64 {
    /// An integer value as it is.
    open spec fn decode(raw: SqliteValueView) -> Outcome<i64> {
        match raw {
            SqliteValueView::Integer(value) => Ok(value),
            _ => Err(DeserializeFault::Malformed(Cause::WrongType)),
        }
    }

    open spec fn decode_null() -> Outcome<i64> {
        Err(DeserializeFault::UnexpectedNull)
    }

    fn from_sql(bytes: SqliteValue<'_>) -> (result: Result<Self>) {
        assert(bytes@ is Integer <==> bytes is Integer);
        match bytes {
            SqliteValue::Integer(value) => {
                assert(bytes@ == SqliteValueView::Integer(value));
                Ok(value)
            },
            _ => Err(DeserializeError::Malformed(Cause::WrongType)),
        }
    }

    fn from_nullable_sql(bytes: Option<SqliteValue<'_>>) -> (result: Result<Self>) {
        match bytes {
            Some(bytes) => <i64 as FromSql<BigInt, Sqlite>>::from_sql(bytes),
            None => Err(DeserializeError::UnexpectedNull),
        }
    }
}

impl FromSql<Integer, Sqlite> for i32 {
    /// An integer value that fits 32 bits.
    open spec fn decode(raw: SqliteValueView) -> Outcome<i32> {
        match raw {
            SqliteValueView::Integer(value) => if i32::MIN <= value <= i32::MAX {
                Ok(value as i32)
            } else {
                Err(DeserializeFault::Malformed(Cause::UnrecognizedValue))
            },
            _ => Err(DeserializeFault::Malformed(Cause::WrongType)),
        }
    }

    open spec fn decode_null() -> Outcome<i32> {
        Err(DeserializeFault::UnexpectedNull)
    }

    fn from_sql(bytes: SqliteValue<'_>) -> (result: Result<Self>) {
        assert(bytes@ is Integer <==> bytes is Integer);
        match bytes {
            SqliteValue::Integer(value) => {
                assert(bytes@ == SqliteValueView::Integer(value));
                if -0x8000_0000 <= value && value <= 0x7fff_ffff {
                    Ok(value as i32)
                } else {
                    Err(DeserializeError::Malformed(Cause::UnrecognizedValue))
                }
            },
            _ => Err(DeserializeError::Malformed(Cause::WrongType)),
        }
    }

    fn from_nullable_sql(bytes: Option<SqliteValue<'_>>) -> (result: Result<Self>) {
        match bytes {
            Some(bytes) => <i32 as FromSql<Integer, Sqlite>>::from_sql(bytes),
            None => Err(DeserializeError::UnexpectedNull),
        }
    }
}

impl FromSql<Bool, Sqlite> for bool {
    /// An integer value; zero is false, anything else true.
    open spec fn decode(raw: SqliteValueView) -> Outcome<bool> {
        match raw {
            SqliteValueView::Integer(value) => Ok(value != 0),
            _ => Err(DeserializeFault::Malformed(Cause::WrongType)),
        }
    }

    open spec fn decode_null() -> Outcome<bool> {
        Err(DeserializeFault::UnexpectedNull)
    }

    fn from_sql(bytes: SqliteValue<'_>) -> (result: Result<Self>) {
        assert(bytes@ is Integer <==> bytes is Integer);
        match bytes {
            SqliteValue::Integer(value) => {
                assert(bytes@ == SqliteValueView::Integer(value));
                Ok(value != 0)
            },
            _ => Err(DeserializeError::Malformed(Cause::WrongType)),
        }
    }

    fn from_nullable_sql(bytes: Option<SqliteValue<'_>>) -> (result: Result<Self>) {
        match bytes {
            Some(bytes) => <bool as FromSql<Bool, Sqlite>>::from_sql(bytes),
            None => Err(DeserializeError::UnexpectedNull),
        }
    }
}

impl FromSql<Text, Sqlite> for String {
    /// A text value as it is.
    open spec fn decode(raw: SqliteValueView) -> Outcome<Seq<char>> {
        match raw {
            SqliteValueView::Text(text) => Ok(text),
            _ => Err(DeserializeFault::Malformed(Cause::WrongType)),
        }
    }

    open spec fn decode_null() -> Outcome<Seq<char>> {
        Err(DeserializeFault::UnexpectedNull)
    }

    fn from_sql(bytes: SqliteValue<'_>) -> (result: Result<Self>) {
        assert(bytes@ is Text <==> bytes is Text);
        match bytes {
            SqliteValue::Text(text) => {
                assert(bytes@ == SqliteValueView::Text(text@));
                Ok(text.to_owned())
            },
            _ => Err(DeserializeError::Malformed(Cause::WrongType)),
        }
    }

    fn from_nullable_sql(bytes: Option<SqliteValue<'_>>) -> (result: Result<Self>) {
        match bytes {
            Some(bytes) => <String as FromSql<Text, Sqlite>>::from_sql(bytes),
            None => Err(DeserializeError::UnexpectedNull),
        }
    }
}

impl ToSql<Integer, Sqlite> for i32 {
    /// Four bytes in two's complement, most significant first.
    open spec fn encoded(&self) -> Encoding {
        Some(i32_be(*self))
    }

    fn to_sql(&self, out: &mut Output) -> (result: crate::serialize::Result) {
        let mut bytes: Vec<u8> = Vec::new();
        write_i32_be(*self, &mut bytes);
        write_value(bytes.as_slice(), out)
    }
}

impl ToSql<BigInt, Sqlite> for i64 {
    /// Eight bytes in two's complement, most significant first.
    open spec fn encoded(&self) -> Encoding {
        Some(i64_be(*self))
    }

    fn to_sql(&self, out: &mut Output) -> (result: crate::serialize::Result) {
        let mut bytes: Vec<u8> = Vec::new();
        write_i64_be(*self, &mut bytes);
        write_value(bytes.as_slice(), out)
    }
}

impl ToSql<Bool, Sqlite> for bool {
    /// The integer one for true, zero for false, in four bytes.
    open spec fn encoded(&self) -> Encoding {
        Some(i32_be(if *self { 1i32 } else { 0i32 }))
    }

    fn to_sql(&self, out: &mut Output) -> (result: crate::serialize::Result) {
        let mut bytes: Vec<u8> = Vec::new();
        write_i32_be(if *self { 1i32 } else { 0i32 }, &mut bytes);
        write_value(bytes.as_slice(), out)
    }
}

impl RoundTrip<BigInt, Sqlite> for i64 {
    proof fn lemma_round_trip(&self, raw: SqliteValueView) {
        crate::codec::lemma_i64_round_trip(*self);
    }
}

impl RoundTrip<Integer, Sqlite> for i32 {
    proof fn lemma_round_trip(&self, raw: SqliteValueView) {
        crate::codec::lemma_i32_round_trip(*self);
    }
}

impl RoundTrip<Bool, Sqlite> for bool {
    proof fn lemma_round_trip(&self, raw: SqliteValueView) {
        crate::codec::lemma_i32_round_trip(if *self { 1i32 } else { 0i32 });
    }
}

impl RoundTrip<Text, Sqlite> for String {
    proof fn lemma_round_trip(&self, raw: SqliteValueView) {
        crate::codec::lemma_text_round_trip(self@);
    }
}

impl RejectsNull<BigInt, Sqlite> for i64 {
    proof fn lemma_null_is_rejected() {
    }
}

impl RejectsNull<Integer, Sqlite> for i32 {
    proof fn lemma_null_is_rejected() {
    }
}

impl RejectsNull<Bool, Sqlite> for bool {
    proof fn lemma_null_is_rejected() {
    }
}

impl RejectsNull<Text, Sqlite> for String {
    proof fn lemma_null_is_rejected() {
    }
}

} // verus!
