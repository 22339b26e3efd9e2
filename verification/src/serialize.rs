//! Conversion of application values into the bytes sent to the database. Only
//! what deserialization shares with it is here: the byte buffer, the null
//! marker and the contract of one value.

use vstd::prelude::*;
use vstd::string::StringSliceAdditionalSpecFns;
use vstd::utf8::encode_utf8;
use crate::backend::Backend;
use crate::sql_types::{NotNull, Nullable, SqlType, Text};

verus! {

/// Whether a serialized value is SQL NULL. A null value has no bytes.
#[derive(Debug, Clone, Copy, PartialEq, Eq, Structural)]
pub enum IsNull {
    /// The value is NULL.
    Yes,
    /// The value is not NULL; its bytes were written.
    No,
}

/// Why a value could not be serialized.
#[derive(Debug, Clone, Copy, PartialEq, Eq, Structural)]
pub enum SerializeError {
    /// The buffer has no room for the value.
    BufferFull,
}

/// The result of a serialization.
pub type Result = core::result::Result<IsNull, SerializeError>;

/// The buffer that serialized values are written to. It takes bytes up to a
/// limit and refuses a write that would go beyond it.
pub struct Output {
    out: Vec<u8>,
    limit: usize,
}

impl View for Output {
    type V = Seq<u8>;

    closed spec fn view(&self) -> Seq<u8> {
        self.out@
    }
}

/// Whether `more` bytes fit behind `held` bytes in a buffer of limit `limit`.
pub open spec fn fits(held: nat, limit: nat, more: nat) -> bool {
    held + more <= limit
}

impl Output {
    /// The number of bytes that the buffer takes at most.
    pub closed spec fn limit(&self) -> nat {
        self.limit as nat
    }

    /// A buffer that continues `out` and takes whatever the machine can
    /// hold.
    pub fn new(out: Vec<u8>) -> (output: Self)
        ensures
            output@ == out@,
            output.limit() == usize::MAX,
    {
        Output { out, limit: usize::MAX }
    }

    /// A buffer that continues `out` and takes `limit` bytes at most,
    /// counting those of `out`.
    pub fn with_limit(out: Vec<u8>, limit: usize) -> (output: Self)
        ensures
            output@ == out@,
            output.limit() == limit,
    {
        Output { out, limit }
    }

    /// An empty buffer that takes whatever the machine can hold.
    pub fn test() -> (output: Self)
        ensures
            output@ == Seq::<u8>::empty(),
            output.limit() == usize::MAX,
    {
        Output { out: Vec::new(), limit: usize::MAX }
    }

    /// Appends `bytes` where they fit; else nothing is written and the
    /// write fails.
    pub fn write_all(&mut self, bytes: &[u8]) -> (result: core::result::Result<(), SerializeError>)
        ensures
            final(self).limit() == old(self).limit(),
            fits(old(self)@.len(), old(self).limit(), bytes@.len()) ==> result is Ok && final(self)@
                == old(self)@ + bytes@,
            !fits(old(self)@.len(), old(self).limit(), bytes@.len()) ==> result == Err::<
                (),
                SerializeError,
            >(SerializeError::BufferFull) && final(self)@ == old(self)@,
    {
        if self.out.len() > self.limit || bytes.len() > self.limit - self.out.len() {
            return Err(SerializeError::BufferFull);
        }
        let mut i: usize = 0;
        while i < bytes.len()
            invariant
                i <= bytes@.len(),
                self.limit == old(self).limit,
                self.out@ == old(self).out@ + bytes@.take(i as int),
            decreases bytes@.len() - i,
        {
            self.out.push(bytes[i]);
            i += 1;
            assert(self.out@ =~= old(self).out@ + bytes@.take(i as int));
        }
        assert(bytes@.take(bytes@.len() as int) =~= bytes@);
        Ok(())
    }

    /// Whether nothing has been written.
    pub fn is_empty(&self) -> (empty: bool)
        ensures
            empty == (self@.len() == 0),
    {
        self.out.len() == 0
    }

    /// What has been written.
    pub fn as_bytes(&self) -> (bytes: &[u8])
        ensures
            bytes@ == self@,
    {
        self.out.as_slice()
    }

    /// Gives up the buffer for what has been written.
    pub fn into_inner(self) -> (bytes: Vec<u8>)
        ensures
            bytes@ == self@,
    {
        self.out
    }
}

/// What a value serializes to: nothing for NULL, else its bytes.
pub type Encoding = Option<Seq<u8>>;

/// What writing `encoding` does to a buffer that holds `held` and takes
/// `limit` bytes: the result, and what the buffer holds afterwards. NULL
/// writes nothing; bytes are appended where they fit and refused where they
/// do not.
pub open spec fn written(held: Seq<u8>, limit: nat, encoding: Encoding) -> (Result, Seq<u8>) {
    match encoding {
        None => (Ok(IsNull::Yes), held),
        Some(bytes) => if fits(held.len(), limit, bytes.len()) {
            (Ok(IsNull::No), held + bytes)
        } else {
            (Err(SerializeError::BufferFull), held)
        },
    }
}

/// Serialize a single value of SQL type `A` for backend `DB`.
pub trait ToSql<A, DB: Backend> {
    /// What the value serializes to.
    spec fn encoded(&self) -> Encoding;

    /// Writes the value's bytes to the end of `out` and says whether it is
    /// NULL.
    fn to_sql(&self, out: &mut Output) -> (result: Result)
        ensures
            (result, final(out)@) == written(old(out)@, old(out).limit(), self.encoded()),
            final(out).limit() == old(out).limit(),
    ;
}

impl<'a, T, A, DB> ToSql<A, DB> for &'a T where DB: Backend, T: ToSql<A, DB> + ?Sized {
    open spec fn encoded(&self) -> Encoding {
        (**self).encoded()
    }

    fn to_sql(&self, out: &mut Output) -> (result: Result) {
        (**self).to_sql(out)
    }
}

impl<T, ST, DB> ToSql<Nullable<ST>, DB> for Option<T> where
    T: ToSql<ST, DB>,
    DB: Backend,
    ST: SqlType<IsNull = NotNull>,
 {
    /// `None` is NULL; `Some` is what it holds.
    open spec fn encoded(&self) -> Encoding {
        match self {
            Some(value) => value.encoded(),
            None => None,
        }
    }

    fn to_sql(&self, out: &mut Output) -> (result: Result) {
        if let Some(ref value) = *self {
            value.to_sql(out)
        } else {
            Ok(IsNull::Yes)
        }
    }
}

/// Writes the bytes of a value that is not NULL.
pub fn write_value(bytes: &[u8], out: &mut Output) -> (result: Result)
    ensures
        (result, final(out)@) == written(old(out)@, old(out).limit(), Some(bytes@)),
        final(out).limit() == old(out).limit(),
{
    match out.write_all(bytes) {
        Ok(()) => Ok(IsNull::No),
        Err(error) => Err(error),
    }
}

impl<DB: Backend> ToSql<Text, DB> for str {
    /// Text is sent as its UTF-8 bytes.
    open spec fn encoded(&self) -> Encoding {
        Some(encode_utf8(self@))
    }

    fn to_sql(&self, out: &mut Output) -> (result: Result) {
        write_value(self.as_bytes(), out)
    }
}

impl<DB: Backend> ToSql<Text, DB> for String {
    open spec fn encoded(&self) -> Encoding {
        Some(encode_utf8(self@))
    }

    fn to_sql(&self, out: &mut Output) -> (result: Result) {
        write_value(self.as_str().as_bytes(), out)
    }
}

} // verus!
