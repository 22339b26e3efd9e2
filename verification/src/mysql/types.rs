//! The scalar conversions of the pre-bound-buffer backend, and how it
//! describes SQL types to the driver.

use vstd::prelude::*;
use crate::backend::{HasRowMetadata, HasSqlType};
use crate::codec::{i32_le, le_i32, read_i32_le, read_text, text_of, write_i32_le};
use crate::deserialize::{Cause, DeserializeError, DeserializeFault, FromSql, Outcome, Result, RejectsNull};
use crate::mysql::backend::{Mysql, MysqlType, MysqlValue, MysqlValueView};
use crate::round_trip::RoundTrip;
use crate::serialize::{write_value, Encoding, Output, ToSql};
use crate::sql_types::{BigInt, Binary, Bool, Integer, Text};

verus! {

impl HasSqlType<Integer> for Mysql {
    open spec fn type_of() -> MysqlType {
        MysqlType::Long
    }

    fn metadata(lookup: &()) -> (metadata: MysqlType) {
        MysqlType::Long
    }
}

impl HasSqlType<BigInt> for Mysql {
    open spec fn type_of() -> MysqlType {
        MysqlType::LongLong
    }

    fn metadata(lookup: &()) -> (metadata: MysqlType) {
        MysqlType::LongLong
    }
}

impl HasSqlType<Bool> for Mysql {
    open spec fn type_of() -> MysqlType {
        MysqlType::Tiny
    }

    fn metadata(lookup: &()) -> (metadata: MysqlType) {
        MysqlType::Tiny
    }
}

impl HasSqlType<Text> for Mysql {
    open spec fn type_of() -> MysqlType {
        MysqlType::String
    }

    fn metadata(lookup: &()) -> (metadata: MysqlType) {
        MysqlType::String
    }
}

impl HasSqlType<Binary> for Mysql {
    open spec fn type_of() -> MysqlType {
        MysqlType::Blob
    }

    fn metadata(lookup: &()) -> (metadata: MysqlType) {
        MysqlType::Blob
    }
}

impl HasRowMetadata<Integer> for Mysql {
    open spec fn row_types() -> Seq<MysqlType> {
        seq![MysqlType::Long]
    }

    fn mysql_row_metadata(out: &mut Vec<MysqlType>, lookup: &()) {
        out.push(MysqlType::Long);
        assert(out@ =~= old(out)@ + seq![MysqlType::Long]);
    }
}

impl HasRowMetadata<BigInt> for Mysql {
    open spec fn row_types() -> Seq<MysqlType> {
        seq![MysqlType::LongLong]
    }

    fn mysql_row_metadata(out: &mut Vec<MysqlType>, lookup: &()) {
        out.push(MysqlType::LongLong);
        assert(out@ =~= old(out)@ + seq![MysqlType::LongLong]);
    }
}

impl HasRowMetadata<Bool> for Mysql {
    open spec fn row_types() -> Seq<MysqlType> {
        seq![MysqlType::Tiny]
    }

    fn mysql_row_metadata(out: &mut Vec<MysqlType>, lookup: &()) {
        out.push(MysqlType::Tiny);
        assert(out@ =~= old(out)@ + seq![MysqlType::Tiny]);
    }
}

impl HasRowMetadata<Text> for Mysql {
    open spec fn row_types() -> Seq<MysqlType> {
        seq![MysqlType::String]
    }

    fn mysql_row_metadata(out: &mut Vec<MysqlType>, lookup: &()) {
        out.push(MysqlType::String);
        assert(out@ =~= old(out)@ + seq![MysqlType::String]);
    }
}

impl HasRowMetadata<Binary> for Mysql {
    open spec fn row_types() -> Seq<MysqlType> {
        seq![MysqlType::Blob]
    }

    fn mysql_row_metadata(out: &mut Vec<MysqlType>, lookup: &()) {
        out.push(MysqlType::Blob);
        assert(out@ =~= old(out)@ + seq![MysqlType::Blob]);
    }
}

impl FromSql<Integer, Mysql> for i32 {
    /// Four bytes in two's complement, least significant first.
    open spec fn decode(raw: MysqlValueView) -> Outcome<i32> {
        if raw.bytes.len() == 4 {
            Ok(le_i32(raw.bytes) as i32)
        } else {
            Err(DeserializeFault::Malformed(Cause::WrongLength))
        }
    }

    open spec fn decode_null() -> Outcome<i32> {
        Err(DeserializeFault::UnexpectedNull)
    }

    fn from_sql(bytes: MysqlValue<'_>) -> (result: Result<Self>) {
        let raw = bytes.as_bytes();
        if raw.len() == 4 {
            Ok(read_i32_le(raw))
        } else {
            Err(DeserializeError::Malformed(Cause::WrongLength))
        }
    }

    fn from_nullable_sql(bytes: Option<MysqlValue<'_>>) -> (result: Result<Self>) {
        match bytes {
            Some(bytes) => <i32 as FromSql<Integer, Mysql>>::from_sql(bytes),
            None => Err(DeserializeError::UnexpectedNull),
        }
    }
}

impl ToSql<Integer, Mysql> for i32 {
    open spec fn encoded(&self) -> Encoding {
        Some(i32_le(*self))
    }

    fn to_sql(&self, out: &mut Output) -> (result: crate::serialize::Result) {
        let mut bytes: Vec<u8> = Vec::new();
        write_i32_le(*self, &mut bytes);
        write_value(bytes.as_slice(), out)
    }
}

impl FromSql<Bool, Mysql> for bool {
    /// One byte; zero is false, anything else true.
    open spec fn decode(raw: MysqlValueView) -> Outcome<bool> {
        if raw.bytes.len() == 1 {
            Ok(raw.bytes[0] != 0)
        } else {
            Err(DeserializeFault::Malformed(Cause::WrongLength))
        }
    }

    open spec fn decode_null() -> Outcome<bool> {
        Err(DeserializeFault::UnexpectedNull)
    }

    fn from_sql(bytes: MysqlValue<'_>) -> (result: Result<Self>) {
        let raw = bytes.as_bytes();
        if raw.len() == 1 {
            Ok(raw[0] != 0)
        } else {
            Err(DeserializeError::Malformed(Cause::WrongLength))
        }
    }

    fn from_nullable_sql(bytes: Option<MysqlValue<'_>>) -> (result: Result<Self>) {
        match bytes {
            Some(bytes) => <bool as FromSql<Bool, Mysql>>::from_sql(bytes),
            None => Err(DeserializeError::UnexpectedNull),
        }
    }
}

impl FromSql<Text, Mysql> for String {
    /// The text that the bytes spell in UTF-8.
    open spec fn decode(raw: MysqlValueView) -> Outcome<Seq<char>> {
        match text_of(raw.bytes) {
            Some(text) => Ok(text),
            None => Err(DeserializeFault::Malformed(Cause::InvalidUtf8)),
        }
    }

    open spec fn decode_null() -> Outcome<Seq<char>> {
        Err(DeserializeFault::UnexpectedNull)
    }

    fn from_sql(bytes: MysqlValue<'_>) -> (result: Result<Self>) {
        match read_text(bytes.as_bytes()) {
            Some(text) => Ok(text.to_owned()),
            None => Err(DeserializeError::Malformed(Cause::InvalidUtf8)),
        }
    }

    fn from_nullable_sql(bytes: Option<MysqlValue<'_>>) -> (result: Result<Self>) {
        match bytes {
            Some(bytes) => <String as FromSql<Text, Mysql>>::from_sql(bytes),
            None => Err(DeserializeError::UnexpectedNull),
        }
    }
}

impl RejectsNull<Integer, Mysql> for i32 {
    proof fn lemma_null_is_rejected() {
    }
}

impl RejectsNull<Bool, Mysql> for bool {
    proof fn lemma_null_is_rejected() {
    }
}

impl RejectsNull<Text, Mysql> for String {
    proof fn lemma_null_is_rejected() {
    }
}

impl ToSql<Bool, Mysql> for bool {
    /// One byte: one for true, zero for false.
    open spec fn encoded(&self) -> Encoding {
        Some(seq![if *self { 1u8 } else { 0u8 }])
    }

    fn to_sql(&self, out: &mut Output) -> (result: crate::serialize::Result) {
        let byte: [u8; 1] = [if *self { 1u8 } else { 0u8 }];
        assert(byte@ =~= seq![if *self { 1u8 } else { 0u8 }]);
        write_value(byte.as_slice(), out)
    }
}

impl RoundTrip<Integer, Mysql> for i32 {
    proof fn lemma_round_trip(&self, raw: MysqlValueView) {
        crate::codec::lemma_i32_le_round_trip(*self);
    }
}

impl RoundTrip<Bool, Mysql> for bool {
    proof fn lemma_round_trip(&self, raw: MysqlValueView) {
    }
}

impl RoundTrip<Text, Mysql> for String {
    proof fn lemma_round_trip(&self, raw: MysqlValueView) {
        crate::codec::lemma_text_round_trip(self@);
    }
}

} // verus!
