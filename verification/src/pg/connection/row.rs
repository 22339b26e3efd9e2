//! The cursor over one row of a completed result set.

use vstd::prelude::*;
use crate::pg::backend::{Pg, PgValue};
use crate::pg::connection::result::PgResult;
use crate::row::{Field, FieldView, Row};

verus! {

/// A cursor over the columns of one row of a result set. It holds only the
/// coordinates; every value is looked up in the result set when asked for.
#[derive(Clone, Copy)]
pub struct PgRow<'a> {
    db_result: &'a PgResult,
    row_idx: usize,
    col_idx: usize,
    col_count: usize,
}

/// One column of one row of a result set, held as its coordinates.
pub struct PgField<'a> {
    db_result: &'a PgResult,
    row_idx: usize,
    col_idx: usize,
}

/// The column that a yielded field shows, if one was yielded.
pub open spec fn shown<'a>(field: Option<PgField<'a>>) -> Option<FieldView<Pg>> {
    match field {
        Some(f) => Some(f.column()),
        None => None,
    }
}

/// Where a cursor over `columns` columns stands after `next` at `pos`.
pub open spec fn position_after_next(columns: nat, pos: int) -> int {
    if pos < columns {
        pos + 1
    } else {
        pos
    }
}

/// Where a cursor over `columns` columns stands after `times` calls of `next`
/// from `pos`.
pub open spec fn position_after_nexts(columns: nat, pos: int, times: nat) -> int
    decreases times,
{
    if times == 0 {
        pos
    } else {
        position_after_nexts(columns, position_after_next(columns, pos), (times - 1) as nat)
    }
}

/// From `pos`, `times` calls of `next` move a cursor over `columns` columns
/// forward by `times`, but not past the end.
pub proof fn lemma_position_after_nexts(columns: nat, pos: int, times: nat)
    requires
        0 <= pos <= columns,
    ensures
        position_after_nexts(columns, pos, times) == if pos + times <= columns {
            pos + times
        } else {
            columns as int
        },
    decreases times,
{
    if times > 0 {
        lemma_position_after_nexts(columns, position_after_next(columns, pos), (times - 1) as nat);
    }
}

/// `nth(k)` does what `k + 1` calls of `next` do, of which the first `k`
/// results are dropped: the last of those calls is made where `k` calls have
/// left the cursor, and it yields the column that `nth(k)` yields (name,
/// nullness and bytes) or as little. `nth(k)` leaves the cursor where the
/// `k + 1` calls leave it: `k + 1` columns further on, but not past the end.
pub proof fn lemma_nth_is_repeated_next(row: PgRow, k: nat)
    requires
        0 <= row.position() <= row.source().columns(),
    ensures
        row.yield_at(position_after_nexts(row.source().columns(), row.position(), k))
            == row.yield_at(row.position() + k),
        position_after_nexts(row.source().columns(), row.position(), k + 1) == if row.position()
            + k < row.source().columns() {
            row.position() + k + 1
        } else {
            row.source().columns() as int
        },
{
    lemma_position_after_nexts(row.source().columns(), row.position(), k);
    lemma_position_after_nexts(row.source().columns(), row.position(), k + 1);
}

impl<'a> PgRow<'a> {
    #[verifier::type_invariant]
    closed spec fn well_formed(&self) -> bool {
        &&& self.col_count == self.db_result.columns()
        &&& self.col_idx <= self.col_count
    }

    /// The result set that the cursor reads.
    pub closed spec fn source(&self) -> PgResult {
        *self.db_result
    }

    /// The index of the row that the cursor is over.
    pub closed spec fn row_index(&self) -> int {
        self.row_idx as int
    }

    /// The index of the column that the cursor yields next; the number of
    /// columns once it is exhausted.
    pub closed spec fn position(&self) -> int {
        self.col_idx as int
    }

    /// The column of the cursor's row at index `col`.
    pub open spec fn column_at(&self, col: int) -> FieldView<Pg> {
        self.source().field_at(self.row_index(), col)
    }

    /// What the cursor yields when asked at position `pos`: that column, or
    /// nothing once the row is exhausted.
    pub open spec fn yield_at(&self, pos: int) -> Option<FieldView<Pg>> {
        if 0 <= pos < self.source().columns() {
            Some(self.column_at(pos))
        } else {
            None
        }
    }

    /// A cursor over row `row_idx` of `db_result`, before its first column.
    pub fn new(db_result: &'a PgResult, row_idx: usize) -> (row: Self)
        ensures
            row.source() == *db_result,
            row.row_index() == row_idx,
            row.position() == 0,
            row.remaining().len() == db_result.columns(),
    {
        PgRow { row_idx, col_idx: 0, col_count: db_result.column_count(), db_result }
    }

    /// Skips `n` columns and yields the one behind them, as `n + 1` calls
    /// of `next` would, without making the fields in between. Where fewer
    /// than `n + 1` columns are left the cursor is exhausted and nothing is
    /// yielded.
    pub fn nth(&mut self, n: usize) -> (field: Option<PgField<'a>>)
        ensures
            final(self).source() == old(self).source(),
            final(self).row_index() == old(self).row_index(),
            shown(field) == old(self).yield_at(old(self).position() + n),
            final(self).position() == position_after_nexts(
                old(self).source().columns(),
                old(self).position(),
                (n + 1) as nat,
            ),
            final(self).remaining() == old(self).remaining().skip(
                if n < old(self).remaining().len() {
                    n + 1
                } else {
                    old(self).remaining().len() as int
                },
            ),
    {
        proof {
            use_type_invariant(&*self);
            lemma_position_after_nexts(
                self.db_result.columns(),
                self.col_idx as int,
                (n + 1) as nat,
            );
        }
        if n >= self.col_count - self.col_idx {
            self.col_idx = self.col_count;
            assert(self.remaining() =~= old(self).remaining().skip(
                old(self).remaining().len() as int,
            ));
            None
        } else {
            let target = self.col_idx + n;
            self.col_idx = target + 1;
            assert(self.remaining() =~= old(self).remaining().skip(n + 1));
            Some(PgField { db_result: self.db_result, row_idx: self.row_idx, col_idx: target })
        }
    }

    /// The bounds on the number of columns left: both are that number.
    pub fn size_hint(&self) -> (bounds: (usize, Option<usize>))
        ensures
            bounds.0 == self.remaining().len(),
            bounds.1 == Some(bounds.0),
    {
        proof {
            use_type_invariant(self);
        }
        let left = self.col_count - self.col_idx;
        (left, Some(left))
    }

    /// The cursor and what it is over, put together: the columns left are
    /// those of the row from the position on.
    pub proof fn lemma_remaining(&self)
        requires
            0 <= self.position() <= self.source().columns(),
        ensures
            self.remaining().len() == self.source().columns() - self.position(),
            forall|i: int|
                0 <= i < self.remaining().len() ==> #[trigger] self.remaining()[i]
                    == self.column_at(self.position() + i),
    {
    }
}

impl<'a> Row<'a, Pg> for PgRow<'a> {
    type Item = PgField<'a>;

    closed spec fn remaining(&self) -> Seq<FieldView<Pg>> {
        Seq::new(
            (self.db_result.columns() - self.col_idx) as nat,
            |i: int| self.db_result.field_at(self.row_idx as int, self.col_idx + i),
        )
    }

    fn next(&mut self) -> (field: Option<PgField<'a>>)
        ensures
            final(self).source() == old(self).source(),
            final(self).row_index() == old(self).row_index(),
            shown(field) == old(self).yield_at(old(self).position()),
            final(self).position() == position_after_next(
                old(self).source().columns(),
                old(self).position(),
            ),
    {
        proof {
            use_type_invariant(&*self);
        }
        let current_idx = self.col_idx;
        if current_idx < self.col_count {
            self.col_idx += 1;
            assert(self.remaining() =~= old(self).remaining().drop_first());
            Some(PgField { db_result: self.db_result, row_idx: self.row_idx, col_idx: current_idx })
        } else {
            None
        }
    }

    fn len(&self) -> (n: usize) {
        proof {
            use_type_invariant(self);
        }
        self.col_count - self.col_idx
    }

    fn duplicate(&self) -> (copy: Self)
        ensures
            copy.source() == self.source(),
            copy.row_index() == self.row_index(),
            copy.position() == self.position(),
    {
        proof {
            use_type_invariant(self);
        }
        PgRow {
            db_result: self.db_result,
            row_idx: self.row_idx,
            col_idx: self.col_idx,
            col_count: self.col_count,
        }
    }
}

impl<'a> Field<'a, Pg> for PgField<'a> {
    closed spec fn column(&self) -> FieldView<Pg> {
        self.db_result.field_at(self.row_idx as int, self.col_idx as int)
    }

    fn column_name(&self) -> (name: Option<&str>) {
        self.db_result.column_name(self.col_idx)
    }

    fn value(&self) -> (raw: Option<PgValue<'a>>) {
        match self.db_result.get(self.row_idx, self.col_idx) {
            Some(raw) => Some(PgValue::new(raw, self.db_result.column_type(self.col_idx))),
            None => None,
        }
    }
}

} // verus!
