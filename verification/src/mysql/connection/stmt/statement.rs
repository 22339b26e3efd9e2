//! A prepared statement as far as reading its result goes: the description of
//! its columns, and the rows that the driver delivers for it one at a time
//! into the caller's output buffers.

use vstd::prelude::*;
use crate::mysql::connection::bind::{BindView, Binds};
use crate::mysql::connection::stmt::metadata::{FieldMetadataView, StatementMetadata};
use crate::result::{DatabaseErrorKind, Error, Failure, QueryResult};

verus! {

/// One row as the driver delivers it: per column the bytes, or nothing for
/// NULL.
pub type DriverRow = Vec<Option<Vec<u8>>>;

/// A statement with what the driver delivers for it: the description of the
/// columns, the rows in order, and the error that ends the delivery if one
/// does.
pub struct Statement {
    metadata: StatementMetadata,
    rows: Vec<DriverRow>,
    failure: Option<Error>,
    delivered: usize,
}

/// The cells of one delivered row.
pub open spec fn row_cells(row: DriverRow) -> Seq<Option<Seq<u8>>> {
    Seq::new(
        row@.len(),
        |i: int|
            match row@[i] {
                Some(bytes) => Some(bytes@),
                None => None,
            },
    )
}

/// The buffers `binds` after the row `cells` was written into them: each
/// keeps its type and holds the cell of its column.
pub open spec fn refilled(binds: Seq<BindView>, cells: Seq<Option<Seq<u8>>>) -> Seq<BindView> {
    Seq::new(binds.len(), |i: int| BindView { tpe: binds[i].tpe, value: cells[i] })
}

/// The error of output buffers that are not one per column.
pub open spec fn buffers_do_not_match() -> Failure {
    Failure::DatabaseError(
        DatabaseErrorKind::UnableToSendCommand,
        "the output buffers do not match the columns of the statement"@,
    )
}

impl Statement {
    /// The statement is consistent: each row has one cell per column.
    /// `new` makes only such statements and every operation keeps them so.
    pub closed spec fn shaped(&self) -> bool {
        &&& self.delivered <= self.rows@.len()
        &&& forall|r: int|
            0 <= r < self.rows@.len() ==> (#[trigger] self.rows@[r])@.len() == self.metadata@.len()
    }

    /// The descriptions of the columns.
    pub closed spec fn columns(&self) -> Seq<FieldMetadataView> {
        self.metadata@
    }

    /// The rows not yet delivered, next one first.
    pub closed spec fn pending(&self) -> Seq<Seq<Option<Seq<u8>>>> {
        Seq::new(
            (self.rows@.len() - self.delivered) as nat,
            |i: int| row_cells(self.rows@[self.delivered + i]),
        )
    }

    /// The error that follows the last row, if the delivery ends in one.
    pub closed spec fn ending(&self) -> Option<Failure> {
        match self.failure {
            Some(error) => Some(error@),
            None => None,
        }
    }

    /// A statement whose result has the columns of `metadata` and for which
    /// the driver delivers `rows` and then, if `failure` is given, fails with
    /// it. `None` where a row has not one cell per column.
    pub fn new(metadata: StatementMetadata, rows: Vec<DriverRow>, failure: Option<Error>) -> (stmt:
        Option<Self>)
        ensures
            stmt is Some <==> forall|r: int|
                0 <= r < rows@.len() ==> (#[trigger] rows@[r])@.len() == metadata@.len(),
            stmt matches Some(s) ==> {
                &&& s.shaped()
                &&& s.columns() == metadata@
                &&& s.pending() == Seq::new(rows@.len(), |i: int| row_cells(rows@[i]))
                &&& s.ending() == (match failure {
                    Some(error) => Some(error@),
                    None => None,
                })
            },
    {
        let mut r: usize = 0;
        while r < rows.len()
            invariant
                r <= rows@.len(),
                forall|k: int| 0 <= k < r ==> (#[trigger] rows@[k])@.len() == metadata@.len(),
            decreases rows@.len() - r,
        {
            if rows[r].len() != metadata.fields().len() {
                return None;
            }
            r += 1;
        }
        let stmt = Statement { metadata, rows, failure, delivered: 0 };
        assert(stmt.pending() =~= Seq::new(rows@.len(), |i: int| row_cells(rows@[i])));
        Some(stmt)
    }

    /// The description of the columns of the result.
    pub fn metadata(&self) -> (result: QueryResult<StatementMetadata>)
        ensures
            result matches Ok(metadata) && metadata@ == self.columns(),
    {
        Ok(self.metadata.duplicate())
    }

    /// Binds `binds` as the output buffers and runs the statement. Buffers
    /// that are not one per column are refused.
    pub fn execute_statement(&mut self, binds: &mut Binds) -> (result: QueryResult<()>)
        requires
            old(self).shaped(),
        ensures
            final(binds)@ == old(binds)@,
            final(self).columns() == old(self).columns(),
            final(self).pending() == old(self).pending(),
            final(self).ending() == old(self).ending(),
            final(self).shaped(),
            result is Ok <==> old(binds)@.len() == old(self).columns().len(),
            result matches Err(error) ==> error@ == buffers_do_not_match(),
    {
        if binds.len() != self.metadata.fields().len() {
            return Err(
                Error::DatabaseError(
                    DatabaseErrorKind::UnableToSendCommand,
                    "the output buffers do not match the columns of the statement".to_owned(),
                ),
            );
        }
        Ok(())
    }

    /// Fetches the next row into `binds`, over what they held. `Ok(Some)`
    /// where a row was written, `Ok(None)` where the rows are exhausted, the
    /// driver's error where the delivery ends in one; the error is reported
    /// once.
    pub fn populate_row_buffers(&mut self, binds: &mut Binds) -> (result: QueryResult<Option<()>>)
        requires
            old(self).shaped(),
            old(binds)@.len() == old(self).columns().len(),
        ensures
            final(self).columns() == old(self).columns(),
            final(self).shaped(),
            old(self).pending().len() > 0 ==> {
                &&& result matches Ok(Some(_))
                &&& final(self).pending() == old(self).pending().drop_first()
                &&& final(self).ending() == old(self).ending()
                &&& final(binds)@ == refilled(old(binds)@, old(self).pending()[0])
            },
            old(self).pending().len() == 0 ==> {
                &&& final(self).pending() == old(self).pending()
                &&& final(self).ending() is None
                &&& final(binds)@ == old(binds)@
                &&& match old(self).ending() {
                    Some(failure) => result matches Err(error) && error@ == failure,
                    None => result matches Ok(None),
                }
            },
    {
        if self.delivered < self.rows.len() {
            let row = &self.rows[self.delivered];
            let ghost cells = row_cells(*row);
            let mut c: usize = 0;
            while c < row.len()
                invariant
                    c <= row@.len(),
                    row@.len() == binds@.len(),
                    binds@.len() == old(binds)@.len(),
                    cells == row_cells(*row),
                    forall|k: int| 0 <= k < c ==> #[trigger] binds@[k] == refilled(old(binds)@, cells)[k],
                    forall|k: int| c <= k < binds@.len() ==> #[trigger] binds@[k] == old(binds)@[k],
                decreases row@.len() - c,
            {
                match &row[c] {
                    Some(bytes) => binds.store(c, Some(bytes.as_slice())),
                    None => binds.store(c, None),
                }
                c += 1;
            }
            assert(binds@ =~= refilled(old(binds)@, cells));
            self.delivered += 1;
            assert(self.pending() =~= old(self).pending().drop_first());
            Ok(Some(()))
        } else {
            assert(self.pending() =~= old(self).pending());
            match self.failure.take() {
                Some(error) => Err(error),
                None => Ok(None),
            }
        }
    }
}

} // verus!
