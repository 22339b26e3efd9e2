//! A completed result set of the binary protocol.

use vstd::prelude::*;
use crate::pg::backend::{Pg, PgValueView};
use crate::row::FieldView;

verus! {

/// A completed result set: for each column its name and the object id of its
/// type, and for each row one cell per column, absent where the value is NULL.
pub struct PgResult {
    column_names: Vec<Option<String>>,
    column_types: Vec<u32>,
    rows: Vec<Vec<Option<Vec<u8>>>>,
}

impl PgResult {
    #[verifier::type_invariant]
    closed spec fn well_formed(&self) -> bool {
        &&& self.column_names.len() == self.column_types.len()
        &&& forall|r: int|
            0 <= r < self.rows.len() ==> (#[trigger] self.rows[r]).len() == self.column_types.len()
    }

    /// The number of columns.
    pub closed spec fn columns(&self) -> nat {
        self.column_types@.len()
    }

    /// The number of rows.
    pub closed spec fn height(&self) -> nat {
        self.rows@.len()
    }

    /// The name of column `col`; `None` where it has none or there is no such
    /// column.
    pub closed spec fn name_at(&self, col: int) -> Option<Seq<char>> {
        if 0 <= col < self.column_names.len() {
            match self.column_names[col] {
                Some(name) => Some(name@),
                None => None,
            }
        } else {
            None
        }
    }

    /// The object id of the type of column `col`.
    pub closed spec fn type_at(&self, col: int) -> u32 {
        self.column_types[col]
    }

    /// The bytes at row `row`, column `col`; `None` where the value is NULL or
    /// there is no such cell.
    pub closed spec fn cell(&self, row: int, col: int) -> Option<Seq<u8>> {
        if 0 <= row < self.rows.len() && 0 <= col < self.rows[row].len() {
            match self.rows[row][col] {
                Some(bytes) => Some(bytes@),
                None => None,
            }
        } else {
            None
        }
    }

    /// The column at row `row`, column `col`, as a cursor shows it.
    pub open spec fn field_at(&self, row: int, col: int) -> FieldView<Pg> {
        FieldView {
            name: self.name_at(col),
            value: match self.cell(row, col) {
                Some(bytes) => Some(PgValueView { bytes, type_oid: self.type_at(col) }),
                None => None,
            },
        }
    }

    /// Makes a result set of the given columns and rows. `None` where the
    /// names and types differ in number or a row has not one cell per column.
    pub fn new(
        column_names: Vec<Option<String>>,
        column_types: Vec<u32>,
        rows: Vec<Vec<Option<Vec<u8>>>>,
    ) -> (result: Option<Self>)
        ensures
            result is Some <==> column_names.len() == column_types.len() && forall|r: int|
                0 <= r < rows.len() ==> (#[trigger] rows[r]).len() == column_types.len(),
            result matches Some(set) ==> {
                &&& set.columns() == column_types.len()
                &&& set.height() == rows.len()
                &&& forall|c: int|
                    0 <= c < column_types.len() ==> #[trigger] set.type_at(c) == column_types[c]
                &&& forall|c: int|
                    0 <= c < column_names.len() ==> #[trigger] set.name_at(c) == (
                    match column_names[c] {
                        Some(name) => Some(name@),
                        None => None,
                    })
                &&& forall|r: int, c: int|
                    0 <= r < rows.len() && 0 <= c < column_types.len() ==> #[trigger] set.cell(r, c)
                        == (match rows[r][c] {
                        Some(bytes) => Some(bytes@),
                        None => None,
                    })
            },
    {
        if column_names.len() != column_types.len() {
            return None;
        }
        let mut r: usize = 0;
        while r < rows.len()
            invariant
                r <= rows.len(),
                forall|k: int| 0 <= k < r ==> (#[trigger] rows[k]).len() == column_types.len(),
            decreases rows.len() - r,
        {
            if rows[r].len() != column_types.len() {
                return None;
            }
            r += 1;
        }
        Some(PgResult { column_names, column_types, rows })
    }

    /// The number of columns.
    pub fn column_count(&self) -> (n: usize)
        ensures
            n == self.columns(),
    {
        self.column_types.len()
    }

    /// The number of rows.
    pub fn num_rows(&self) -> (n: usize)
        ensures
            n == self.height(),
    {
        self.rows.len()
    }

    /// The name of column `col_idx`; `None` where it has none or there is no
    /// such column.
    pub fn column_name(&self, col_idx: usize) -> (name: Option<&str>)
        ensures
            name is Some <==> self.name_at(col_idx as int) is Some,
            name matches Some(n) ==> n@ == self.name_at(col_idx as int).unwrap(),
    {
        if col_idx < self.column_names.len() {
            match &self.column_names[col_idx] {
                Some(name) => Some(name.as_str()),
                None => None,
            }
        } else {
            None
        }
    }

    /// The object id of the type of column `col_idx`.
    pub fn column_type(&self, col_idx: usize) -> (oid: u32)
        requires
            col_idx < self.columns(),
        ensures
            oid == self.type_at(col_idx as int),
    {
        self.column_types[col_idx]
    }

    /// The bytes at row `row_idx`, column `col_idx`; `None` where the value is
    /// NULL or there is no such cell.
    pub fn get(&self, row_idx: usize, col_idx: usize) -> (bytes: Option<&[u8]>)
        ensures
            bytes is Some <==> self.cell(row_idx as int, col_idx as int) is Some,
            bytes matches Some(b) ==> b@ == self.cell(row_idx as int, col_idx as int).unwrap(),
            bytes is Some ==> col_idx < self.columns() && row_idx < self.height(),
    {
        proof {
            use_type_invariant(self);
        }
        if row_idx < self.rows.len() {
            let row = &self.rows[row_idx];
            if col_idx < row.len() {
                match &row[col_idx] {
                    Some(bytes) => Some(bytes.as_slice()),
                    None => None,
                }
            } else {
                None
            }
        } else {
            None
        }
    }
}

} // verus!
