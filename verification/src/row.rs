//! The cursor abstraction: a row is a forward cursor over the fields of one
//! database record, a field is one column of it.

use vstd::prelude::*;
use crate::backend::{raw_model, Backend, RawModel};

verus! {

/// What one column of a record holds: its name, if the context has names, and
/// its value, absent for SQL NULL.
pub struct FieldView<DB: Backend> {
    pub name: Option<Seq<char>>,
    pub value: Option<RawModel<DB>>,
}

/// A single column of a database row.
pub trait Field<'a, DB: Backend> {
    /// The column as a mathematical value.
    spec fn column(&self) -> FieldView<DB>;

    /// The column's name; `None` where columns are positional.
    fn column_name(&self) -> (name: Option<&str>)
        ensures
            name is Some <==> self.column().name is Some,
            name matches Some(n) ==> n@ == self.column().name.unwrap(),
    ;

    /// The raw value of the column; `None` for SQL NULL.
    fn value(&self) -> (raw: Option<DB::RawValue<'a>>)
        ensures
            raw_model::<DB>(raw) == self.column().value,
    ;

    /// Whether the column holds SQL NULL.
    fn is_null(&self) -> (null: bool)
        ensures
            null == (self.column().value is None),
    {
        self.value().is_none()
    }
}

/// A single database row: a cursor that yields the record's remaining columns
/// in order, knows how many are left, and can be duplicated.
pub trait Row<'a, DB: Backend>: Sized {
    type Item: Field<'a, DB>;

    /// The columns not yet yielded, next one first.
    spec fn remaining(&self) -> Seq<FieldView<DB>>;

    /// Yields the next column and moves past it; `None`, without moving, once
    /// the columns are exhausted.
    fn next(&mut self) -> (field: Option<Self::Item>)
        ensures
            old(self).remaining().len() == 0 ==> field is None && final(self).remaining()
                == old(self).remaining(),
            old(self).remaining().len() > 0 ==> field is Some && field.unwrap().column() == old(
                self,
            ).remaining()[0] && final(self).remaining() == old(self).remaining().drop_first(),
    ;

    /// The number of columns left.
    fn len(&self) -> (n: usize)
        ensures
            n == self.remaining().len(),
    ;

    /// An independent cursor at the same position over the same record.
    fn duplicate(&self) -> (copy: Self)
        ensures
            copy.remaining() == self.remaining(),
    ;
}

} // verus!
