//! The scalar conversions of the binary protocol.

use vstd::prelude::*;
use vstd::utf8::encode_utf8;
use crate::codec::{be_i32, i32_be, read_i32_be, read_text, text_of, write_i32_be};
use crate::deserialize::{
    outcome, Cause, DeserializeError, DeserializeFault, FromSql, Outcome, Result, RejectsNull};
use crate::backend::HasSqlType;
use crate::pg::backend::{Pg, PgTypeMetadata, PgValue, PgValueView};
use crate::round_trip::RoundTrip;
use crate::serialize::{write_value, Encoding, Output, ToSql};
use crate::sql_types::{Bool, Integer, Text};

verus! {

impl FromSql<Integer, Pg> for i32 {
    /// Four bytes in two's complement, most significant first.
    open spec fn decode(raw: PgValueView) -> Outcome<i32> {
        if raw.bytes.len() == 4 {
            Ok(be_i32(raw.bytes) as i32)
        } else {
            Err(DeserializeFault::Malformed(Cause::WrongLength))
        }
    }

    open spec fn decode_null() -> Outcome<i32> {
        Err(DeserializeFault::UnexpectedNull)
    }

    fn from_sql(bytes: PgValue<'_>) -> (result: Result<Self>) {
        let raw = bytes.as_bytes();
        if raw.len() == 4 {
            Ok(read_i32_be(raw))
        } else {
            Err(DeserializeError::Malformed(Cause::WrongLength))
        }
    }

    fn from_nullable_sql(bytes: Option<PgValue<'_>>) -> (result: Result<Self>) {
        match bytes {
            Some(bytes) => <i32 as FromSql<Integer, Pg>>::from_sql(bytes),
            None => Err(DeserializeError::UnexpectedNull),
        }
    }
}

impl ToSql<Integer, Pg> for i32 {
    open spec fn encoded(&self) -> Encoding {
        Some(i32_be(*self))
    }

    fn to_sql(&self, out: &mut Output) -> (result: crate::serialize::Result) {
        let mut bytes: Vec<u8> = Vec::new();
        write_i32_be(*self, &mut bytes);
        write_value(bytes.as_slice(), out)
    }
}

impl FromSql<Bool, Pg> for bool {
    /// One byte; zero is false, anything else true.
    open spec fn decode(raw: PgValueView) -> Outcome<bool> {
        if raw.bytes.len() == 1 {
            Ok(raw.bytes[0] != 0)
        } else {
            Err(DeserializeFault::Malformed(Cause::WrongLength))
        }
    }

    open spec fn decode_null() -> Outcome<bool> {
        Err(DeserializeFault::UnexpectedNull)
    }

    fn from_sql(bytes: PgValue<'_>) -> (result: Result<Self>) {
        let raw = bytes.as_bytes();
        if raw.len() == 1 {
            Ok(raw[0] != 0)
        } else {
            Err(DeserializeError::Malformed(Cause::WrongLength))
        }
    }

    fn from_nullable_sql(bytes: Option<PgValue<'_>>) -> (result: Result<Self>) {
        match bytes {
            Some(bytes) => <bool as FromSql<Bool, Pg>>::from_sql(bytes),
            None => Err(DeserializeError::UnexpectedNull),
        }
    }
}

impl ToSql<Bool, Pg> for bool {
    open spec fn encoded(&self) -> Encoding {
        Some(seq![if *self { 1u8 } else { 0u8 }])
    }

    fn to_sql(&self, out: &mut Output) -> (result: crate::serialize::Result) {
        let byte: [u8; 1] = [if *self { 1u8 } else { 0u8 }];
        assert(byte@ =~= seq![if *self { 1u8 } else { 0u8 }]);
        write_value(byte.as_slice(), out)
    }
}

impl FromSql<Text, Pg> for String {
    /// The text that the bytes spell in UTF-8.
    open spec fn decode(raw: PgValueView) -> Outcome<Seq<char>> {
        match text_of(raw.bytes) {
            Some(text) => Ok(text),
            None => Err(DeserializeFault::Malformed(Cause::InvalidUtf8)),
        }
    }

    open spec fn decode_null() -> Outcome<Seq<char>> {
        Err(DeserializeFault::UnexpectedNull)
    }

    fn from_sql(bytes: PgValue<'_>) -> (result: Result<Self>) {
        match read_text(bytes.as_bytes()) {
            Some(text) => Ok(text.to_owned()),
            None => Err(DeserializeError::Malformed(Cause::InvalidUtf8)),
        }
    }

    fn from_nullable_sql(bytes: Option<PgValue<'_>>) -> (result: Result<Self>) {
        match bytes {
            Some(bytes) => <String as FromSql<Text, Pg>>::from_sql(bytes),
            None => Err(DeserializeError::UnexpectedNull),
        }
    }
}

impl HasSqlType<Integer> for Pg {
    open spec fn type_of() -> PgTypeMetadata {
        PgTypeMetadata { oid: 23 }
    }

    fn metadata(lookup: &()) -> (metadata: PgTypeMetadata) {
        PgTypeMetadata { oid: 23 }
    }
}

impl HasSqlType<Bool> for Pg {
    open spec fn type_of() -> PgTypeMetadata {
        PgTypeMetadata { oid: 16 }
    }

    fn metadata(lookup: &()) -> (metadata: PgTypeMetadata) {
        PgTypeMetadata { oid: 16 }
    }
}

impl HasSqlType<Text> for Pg {
    open spec fn type_of() -> PgTypeMetadata {
        PgTypeMetadata { oid: 25 }
    }

    fn metadata(lookup: &()) -> (metadata: PgTypeMetadata) {
        PgTypeMetadata { oid: 25 }
    }
}

impl RoundTrip<Integer, Pg> for i32 {
    proof fn lemma_round_trip(&self, raw: PgValueView) {
        crate::codec::lemma_i32_round_trip(*self);
    }
}

impl RoundTrip<Bool, Pg> for bool {
    proof fn lemma_round_trip(&self, raw: PgValueView) {
    }
}

impl RoundTrip<Text, Pg> for String {
    proof fn lemma_round_trip(&self, raw: PgValueView) {
        crate::codec::lemma_text_round_trip(self@);
    }
}

impl RejectsNull<Integer, Pg> for i32 {
    proof fn lemma_null_is_rejected() {
    }
}

impl RejectsNull<Bool, Pg> for bool {
    proof fn lemma_null_is_rejected() {
    }
}

impl RejectsNull<Text, Pg> for String {
    proof fn lemma_null_is_rejected() {
    }
}

} // verus!
