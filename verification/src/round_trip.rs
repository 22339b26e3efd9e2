//! What is sent to the database comes back as it went.

use vstd::prelude::*;
use crate::backend::{Backend, HasSqlType, RawModel, Wire};
use crate::deserialize::{FromSql, Outcome};
use crate::serialize::ToSql;

verus! {

/// A scalar type that can be sent to backend `DB` and read from it under the
/// SQL type `ST`, and comes back as it went.
pub trait RoundTrip<ST, DB: Backend + HasSqlType<ST> + Wire>: FromSql<ST, DB> + ToSql<ST, DB> {
    /// A value is sent as bytes, not as NULL, and decoding any raw value in
    /// which the backend hands those bytes back gives the value.
    proof fn lemma_round_trip(&self, raw: RawModel<DB>)
        ensures
            self.encoded() is Some,
            <DB as Wire>::received(<DB as HasSqlType<ST>>::type_of(), self.encoded().unwrap(), raw)
                ==> Self::decode(raw) == Outcome::<Self::V>::Ok(self.deep_view()),
    ;
}

} // verus!
