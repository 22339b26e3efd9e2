//! Reading the rows of an executed statement through its output buffers.

use vstd::prelude::*;
use crate::mysql::backend::{Mysql, MysqlType, MysqlValue};
use crate::mysql::connection::bind::{bind_value, BindData, BindView, Binds};
use crate::mysql::connection::stmt::metadata::{
    FieldMetadataView, MysqlFieldMetadata, StatementMetadata,
};
use crate::mysql::connection::stmt::statement::{buffers_do_not_match, refilled, Statement};
use crate::result::{Error, Failure, QueryResult};
use crate::row::{Field, FieldView, Row};

verus! {

/// The columns that output buffers present under the names of `columns`.
pub open spec fn buffer_fields(binds: Seq<BindView>, columns: Seq<FieldMetadataView>) -> Seq<
    FieldView<Mysql>,
> {
    Seq::new(
        binds.len(),
        |i: int| FieldView { name: columns[i].name, value: bind_value(binds[i]) },
    )
}

/// The rows of an executed statement, read one at a time through one set of
/// output buffers. Each fetch overwrites the buffers, so a row can be looked
/// at only until the next one is fetched.
pub struct StatementIterator<'a> {
    stmt: &'a mut Statement,
    output_binds: Binds,
    metadata: StatementMetadata,
}

/// A cursor over the columns of the row that the output buffers hold.
#[derive(Clone, Copy)]
pub struct MysqlRow<'a> {
    col_idx: usize,
    binds: &'a Binds,
    metadata: &'a StatementMetadata,
}

/// One column of the row that the output buffers hold.
pub struct MysqlField<'a> {
    bind: &'a BindData,
    metadata: &'a MysqlFieldMetadata,
}

/// The columns that a cursor shows of the row `cells`, delivered into
/// buffers bound under the types of `binds`, with the names of `columns`.
pub open spec fn delivered_fields(
    binds: Seq<BindView>,
    columns: Seq<FieldMetadataView>,
    cells: Seq<Option<Seq<u8>>>,
) -> Seq<FieldView<Mysql>> {
    buffer_fields(refilled(binds, cells), columns)
}

/// `f`, given a fresh cursor over the columns `fields`, can return `output`.
pub open spec fn applied<F: Fn(MysqlRow) -> QueryResult<T>, T>(
    f: F,
    fields: Seq<FieldView<Mysql>>,
    output: QueryResult<T>,
) -> bool {
    exists|row: MysqlRow| row.remaining() == fields && #[trigger] call_ensures(f, (row,), output)
}

/// `f` can accept row `j` of `rows`: given a fresh cursor over it, `f` can
/// return a value.
pub open spec fn accepts_row<F: Fn(MysqlRow) -> QueryResult<T>, T>(
    f: F,
    binds: Seq<BindView>,
    columns: Seq<FieldMetadataView>,
    rows: Seq<Seq<Option<Seq<u8>>>>,
    j: int,
) -> bool {
    exists|value: T|
        #[trigger] applied(f, delivered_fields(binds, columns, rows[j]), Ok::<T, Error>(value))
}

/// The iteration with `f` over `rows` ended at row `k` with `error`: `f`
/// accepted the rows before it, and then either refused row `k` with that
/// error or, the rows exhausted, the delivery ended in it.
pub open spec fn ended_at<F: Fn(MysqlRow) -> QueryResult<T>, T>(
    f: F,
    binds: Seq<BindView>,
    columns: Seq<FieldMetadataView>,
    rows: Seq<Seq<Option<Seq<u8>>>>,
    ending: Option<Failure>,
    k: int,
    error: Error,
) -> bool {
    &&& 0 <= k <= rows.len()
    &&& forall|j: int| 0 <= j < k ==> #[trigger] accepts_row(f, binds, columns, rows, j)
    &&& if k < rows.len() {
        applied(f, delivered_fields(binds, columns, rows[k]), Err(error))
    } else {
        ending == Some(error@)
    }
}

impl<'a> StatementIterator<'a> {
    /// The iterator is consistent: there is one output buffer per column.
    /// `new` makes only such iterators and fetching keeps them so.
    pub closed spec fn ready(&self) -> bool {
        &&& self.stmt.shaped()
        &&& self.metadata@ == self.stmt.columns()
        &&& self.output_binds@.len() == self.metadata@.len()
    }

    /// The descriptions of the columns.
    pub closed spec fn columns(&self) -> Seq<FieldMetadataView> {
        self.metadata@
    }

    /// The output buffers.
    pub closed spec fn buffers(&self) -> Seq<BindView> {
        self.output_binds@
    }

    /// The rows not yet fetched, next one first.
    pub closed spec fn pending(&self) -> Seq<Seq<Option<Seq<u8>>>> {
        self.stmt.pending()
    }

    /// The error that follows the last row, if the delivery ends in one.
    pub closed spec fn ending(&self) -> Option<Failure> {
        self.stmt.ending()
    }

    /// Binds output buffers to `stmt` and runs it. The buffers are bound
    /// under `types` where they are given, else under the types of the
    /// statement's columns. Types that are not one per column are refused.
    #[allow(clippy::new_ret_no_self)]
    pub fn new(stmt: &'a mut Statement, types: Option<Vec<MysqlType>>) -> (result: QueryResult<
        Self,
    >)
        requires
            old(stmt).shaped(),
        ensures
            result is Ok <==> (types matches Some(given) ==> given@.len() == old(
                stmt,
            ).columns().len()),
            result matches Err(error) ==> error@ == buffers_do_not_match(),
            result matches Ok(rows) ==> {
                &&& rows.ready()
                &&& rows.columns() == old(stmt).columns()
                &&& rows.pending() == old(stmt).pending()
                &&& rows.ending() == old(stmt).ending()
                &&& rows.buffers().len() == old(stmt).columns().len()
                &&& forall|i: int|
                    0 <= i < rows.buffers().len() ==> (#[trigger] rows.buffers()[i]).tpe == (
                    match types {
                        Some(given) => given@[i],
                        None => old(stmt).columns()[i].tpe,
                    })
            },
    {
        let metadata = match stmt.metadata() {
            Ok(metadata) => metadata,
            Err(error) => {
                return Err(error);
            },
        };
        let mut output_binds = if let Some(types) = types {
            Binds::from_output_types(types)
        } else {
            Binds::from_result_metadata(&metadata)
        };
        match stmt.execute_statement(&mut output_binds) {
            Ok(()) => {},
            Err(error) => {
                return Err(error);
            },
        }
        Ok(StatementIterator { stmt, output_binds, metadata })
    }

    /// Fetches the next row into the output buffers and yields a cursor over
    /// it; nothing once the rows are exhausted, and the driver's error where
    /// the delivery ends in one.
    pub fn next(&mut self) -> (row: Option<QueryResult<MysqlRow<'_>>>)
        requires
            old(self).ready(),
        ensures
            final(self).ready(),
            final(self).columns() == old(self).columns(),
            old(self).pending().len() > 0 ==> {
                &&& row matches Some(Ok(cursor)) && cursor.remaining() == delivered_fields(
                    old(self).buffers(),
                    old(self).columns(),
                    old(self).pending()[0],
                )
                &&& final(self).pending() == old(self).pending().drop_first()
                &&& final(self).ending() == old(self).ending()
                &&& final(self).buffers() == refilled(old(self).buffers(), old(self).pending()[0])
            },
            old(self).pending().len() == 0 ==> {
                &&& final(self).pending() == old(self).pending()
                &&& final(self).buffers() == old(self).buffers()
                &&& final(self).ending() is None
                &&& match old(self).ending() {
                    Some(failure) => row matches Some(Err(error)) && error@ == failure,
                    None => row is None,
                }
            },
    {
        match self.stmt.populate_row_buffers(&mut self.output_binds) {
            Ok(Some(())) => {
                let cursor = MysqlRow {
                    col_idx: 0,
                    binds: &self.output_binds,
                    metadata: &self.metadata,
                };
                assert(cursor.remaining() =~= delivered_fields(
                    old(self).buffers(),
                    old(self).columns(),
                    old(self).pending()[0],
                ));
                Some(Ok(cursor))
            },
            Ok(None) => None,
            Err(e) => Some(Err(e)),
        }
    }

    /// Applies `f` to a cursor over each row in turn, as the row is fetched,
    /// and collects what it returns. The first error ends the iteration and
    /// is the result, be it from `f` or from the driver.
    pub fn map<F, T>(self, f: F) -> (result: QueryResult<Vec<T>>) where
        F: Fn(MysqlRow) -> QueryResult<T>,

        requires
            self.ready(),
            forall|row: MysqlRow| #[trigger] call_requires(f, (row,)),
        ensures
            match result {
                Ok(results) => {
                    &&& results@.len() == self.pending().len()
                    &&& self.ending() is None
                    &&& forall|k: int|
                        0 <= k < results@.len() ==> applied(
                            f,
                            delivered_fields(self.buffers(), self.columns(), self.pending()[k]),
                            Ok(#[trigger] results@[k]),
                        )
                },
                Err(error) => exists|k: int|
                    #[trigger] ended_at(
                        f,
                        self.buffers(),
                        self.columns(),
                        self.pending(),
                        self.ending(),
                        k,
                        error,
                    ),
            },
    {
        let ghost rows = self.pending();
        let ghost buffers = self.buffers();
        let ghost columns = self.columns();
        let ghost ending = self.ending();
        let mut this = self;
        let mut results: Vec<T> = Vec::new();
        loop
            invariant
                rows == self.pending(),
                buffers == self.buffers(),
                columns == self.columns(),
                ending == self.ending(),
                this.ready(),
                forall|row: MysqlRow| #[trigger] call_requires(f, (row,)),
                this.columns() == columns,
                this.ending() == ending,
                results@.len() <= rows.len(),
                this.pending() == rows.skip(results@.len() as int),
                this.buffers().len() == buffers.len(),
                forall|c: int|
                    0 <= c < buffers.len() ==> (#[trigger] this.buffers()[c]).tpe == buffers[c].tpe,
                forall|k: int|
                    0 <= k < results@.len() ==> applied(
                        f,
                        delivered_fields(buffers, columns, rows[k]),
                        Ok(#[trigger] results@[k]),
                    ),
            ensures
                results@.len() == rows.len(),
                ending is None,
                forall|k: int|
                    0 <= k < results@.len() ==> applied(
                        f,
                        delivered_fields(buffers, columns, rows[k]),
                        Ok(#[trigger] results@[k]),
                    ),
            decreases rows.len() - results@.len(), this.pending().len(),
        {
            let ghost at = results@.len() as int;
            let ghost before = this.buffers();
            match this.next() {
                Some(Ok(row)) => {
                    assert(refilled(before, rows[at]) =~= refilled(buffers, rows[at]));
                    assert(row.remaining() =~= delivered_fields(buffers, columns, rows[at]));
                    let ghost shown = row;
                    match f(row) {
                        Ok(value) => {
                            assert(call_ensures(f, (shown,), Ok::<T, Error>(value)));
                            assert(applied(
                                f,
                                delivered_fields(buffers, columns, rows[at]),
                                Ok::<T, Error>(value),
                            ));
                            results.push(value);
                            assert(this.pending() =~= rows.skip(results@.len() as int));
                        },
                        Err(error) => {
                            assert(call_ensures(f, (shown,), Err::<T, Error>(error)));
                            proof {
                                assert forall|j: int| 0 <= j < at implies #[trigger] accepts_row(
                                    f,
                                    buffers,
                                    columns,
                                    rows,
                                    j,
                                ) by {
                                    assert(applied(
                                        f,
                                        delivered_fields(buffers, columns, rows[j]),
                                        Ok::<T, Error>(results@[j]),
                                    ));
                                }
                                assert(applied(
                                    f,
                                    delivered_fields(buffers, columns, rows[at]),
                                    Err::<T, Error>(error),
                                ));
                                assert(ended_at(f, buffers, columns, rows, ending, at, error));
                            }
                            return Err(error);
                        },
                    }
                },
                None => {
                    break ;
                },
                Some(Err(error)) => {
                    proof {
                        assert forall|j: int| 0 <= j < rows.len() implies #[trigger] accepts_row(
                            f,
                            buffers,
                            columns,
                            rows,
                            j,
                        ) by {
                            assert(applied(
                                f,
                                delivered_fields(buffers, columns, rows[j]),
                                Ok::<T, Error>(results@[j]),
                            ));
                        }
                        assert(ended_at(f, buffers, columns, rows, ending, rows.len() as int, error));
                    }
                    return Err(error);
                },
            }
        }
        Ok(results)
    }
}

impl<'a> MysqlRow<'a> {
    #[verifier::type_invariant]
    closed spec fn well_formed(&self) -> bool {
        &&& self.col_idx <= self.binds@.len()
        &&& self.binds@.len() == self.metadata@.len()
    }

    /// The bounds on the number of columns left: both are that number.
    pub fn size_hint(&self) -> (bounds: (usize, Option<usize>))
        ensures
            bounds.0 == self.remaining().len(),
            bounds.1 == Some(bounds.0),
    {
        proof {
            use_type_invariant(self);
        }
        let left = self.binds.len() - self.col_idx;
        (left, Some(left))
    }
}

impl<'a> Row<'a, Mysql> for MysqlRow<'a> {
    type Item = MysqlField<'a>;

    closed spec fn remaining(&self) -> Seq<FieldView<Mysql>> {
        buffer_fields(self.binds@, self.metadata@).skip(self.col_idx as int)
    }

    fn next(&mut self) -> (field: Option<MysqlField<'a>>) {
        proof {
            use_type_invariant(&*self);
        }
        let next_idx = self.col_idx;
        if next_idx < self.binds.len() {
            self.col_idx += 1;
            assert(self.remaining() =~= old(self).remaining().drop_first());
            let field = MysqlField {
                bind: self.binds.get(next_idx),
                metadata: &self.metadata.fields()[next_idx],
            };
            assert(field.column() == buffer_fields(self.binds@, self.metadata@)[next_idx as int]);
            assert(old(self).remaining()[0] == buffer_fields(self.binds@, self.metadata@)[
                next_idx as int
            ]);
            Some(field)
        } else {
            None
        }
    }

    fn len(&self) -> (n: usize) {
        proof {
            use_type_invariant(self);
        }
        self.binds.len() - self.col_idx
    }

    fn duplicate(&self) -> (copy: Self) {
        proof {
            use_type_invariant(self);
        }
        MysqlRow { col_idx: self.col_idx, binds: self.binds, metadata: self.metadata }
    }
}

impl<'a> Field<'a, Mysql> for MysqlField<'a> {
    closed spec fn column(&self) -> FieldView<Mysql> {
        FieldView { name: self.metadata@.name, value: bind_value(self.bind@) }
    }

    fn column_name(&self) -> (name: Option<&str>) {
        self.metadata.field_name()
    }

    fn is_null(&self) -> (null: bool) {
        self.bind.is_null()
    }

    fn value(&self) -> (raw: Option<MysqlValue<'a>>) {
        self.bind.value()
    }
}

} // verus!
