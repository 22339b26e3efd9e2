//! The output buffers that a statement writes fetched rows into.

use vstd::prelude::*;
use crate::mysql::backend::{MysqlType, MysqlValue, MysqlValueView};
use crate::mysql::connection::stmt::metadata::StatementMetadata;

verus! {

/// The output buffer of one column: the type it is bound under, the bytes of
/// the value last written to it, and whether that value was NULL.
pub struct BindData {
    tpe: MysqlType,
    bytes: Vec<u8>,
    is_null: bool,
}

/// What an output buffer holds: nothing where the last value written was
/// NULL, else the value.
pub struct BindView {
    pub tpe: MysqlType,
    pub value: Option<Seq<u8>>,
}

impl View for BindData {
    type V = BindView;

    closed spec fn view(&self) -> BindView {
        BindView {
            tpe: self.tpe,
            value: if self.is_null {
                None
            } else {
                Some(self.bytes@)
            },
        }
    }
}

/// The raw value that a buffer presents.
pub open spec fn bind_value(bind: BindView) -> Option<MysqlValueView> {
    match bind.value {
        Some(bytes) => Some(MysqlValueView { bytes, tpe: bind.tpe }),
        None => None,
    }
}

impl BindData {
    /// An empty buffer bound under `tpe`.
    pub fn for_output(tpe: MysqlType) -> (bind: Self)
        ensures
            bind@ == (BindView { tpe, value: Some(Seq::<u8>::empty()) }),
    {
        BindData { tpe, bytes: Vec::new(), is_null: false }
    }

    /// The type that the buffer is bound under.
    pub fn bind_type(&self) -> (tpe: MysqlType)
        ensures
            tpe == self@.tpe,
    {
        self.tpe
    }

    /// Whether the value last written was NULL.
    pub fn is_null(&self) -> (null: bool)
        ensures
            null == (self@.value is None),
    {
        self.is_null
    }

    /// The value last written; `None` where it was NULL.
    pub fn value<'a>(&'a self) -> (raw: Option<MysqlValue<'a>>)
        ensures
            crate::backend::raw_model::<crate::mysql::backend::Mysql>(raw) == bind_value(self@),
    {
        if self.is_null {
            None
        } else {
            let value = MysqlValue::new(self.bytes.as_slice(), self.tpe);
            assert(value@ == (MysqlValueView { bytes: self.bytes@, tpe: self.tpe }));
            Some(value)
        }
    }

    /// Overwrites the buffer with `cell`: the bytes of a value, or nothing
    /// for NULL. The type stays.
    pub fn store(&mut self, cell: Option<&[u8]>)
        ensures
            final(self)@.tpe == old(self)@.tpe,
            final(self)@.value == (match cell {
                Some(bytes) => Some(bytes@),
                None => None,
            }),
    {
        match cell {
            None => {
                self.is_null = true;
            },
            Some(bytes) => {
                let mut fresh: Vec<u8> = Vec::new();
                let mut i: usize = 0;
                while i < bytes.len()
                    invariant
                        i <= bytes@.len(),
                        fresh@ == bytes@.take(i as int),
                    decreases bytes@.len() - i,
                {
                    fresh.push(bytes[i]);
                    i += 1;
                    assert(fresh@ =~= bytes@.take(i as int));
                }
                assert(bytes@.take(bytes@.len() as int) =~= bytes@);
                self.bytes = fresh;
                self.is_null = false;
            },
        }
    }
}

/// The output buffers of a statement, one per column.
pub struct Binds {
    data: Vec<BindData>,
}

impl View for Binds {
    type V = Seq<BindView>;

    closed spec fn view(&self) -> Seq<BindView> {
        Seq::new(self.data@.len(), |i: int| self.data@[i]@)
    }
}

impl Binds {
    /// One empty buffer for each of `types`, in order.
    pub fn from_output_types(types: Vec<MysqlType>) -> (binds: Self)
        ensures
            binds@.len() == types@.len(),
            forall|i: int|
                0 <= i < types@.len() ==> #[trigger] binds@[i] == (BindView {
                    tpe: types@[i],
                    value: Some(Seq::<u8>::empty()),
                }),
    {
        let mut data: Vec<BindData> = Vec::new();
        let mut i: usize = 0;
        while i < types.len()
            invariant
                i <= types@.len(),
                data@.len() == i,
                forall|k: int|
                    0 <= k < i ==> (#[trigger] data@[k])@ == (BindView {
                        tpe: types@[k],
                        value: Some(Seq::<u8>::empty()),
                    }),
            decreases types@.len() - i,
        {
            data.push(BindData::for_output(types[i]));
            i += 1;
        }
        Binds { data }
    }

    /// One empty buffer for each column that `metadata` describes, bound
    /// under the column's type.
    pub fn from_result_metadata(metadata: &StatementMetadata) -> (binds: Self)
        ensures
            binds@.len() == metadata@.len(),
            forall|i: int|
                0 <= i < metadata@.len() ==> #[trigger] binds@[i] == (BindView {
                    tpe: metadata@[i].tpe,
                    value: Some(Seq::<u8>::empty()),
                }),
    {
        let fields = metadata.fields();
        let mut data: Vec<BindData> = Vec::new();
        let mut i: usize = 0;
        while i < fields.len()
            invariant
                i <= fields@.len(),
                fields@.len() == metadata@.len(),
                forall|k: int| 0 <= k < fields@.len() ==> (#[trigger] fields@[k])@ == metadata@[k],
                data@.len() == i,
                forall|k: int|
                    0 <= k < i ==> (#[trigger] data@[k])@ == (BindView {
                        tpe: metadata@[k].tpe,
                        value: Some(Seq::<u8>::empty()),
                    }),
            decreases fields@.len() - i,
        {
            data.push(BindData::for_output(fields[i].field_type()));
            i += 1;
        }
        Binds { data }
    }

    /// The number of buffers.
    pub fn len(&self) -> (n: usize)
        ensures
            n == self@.len(),
    {
        self.data.len()
    }

    /// The buffer of column `idx`.
    pub fn get(&self, idx: usize) -> (bind: &BindData)
        requires
            idx < self@.len(),
        ensures
            bind@ == self@[idx as int],
    {
        &self.data[idx]
    }

    /// Overwrites the buffer of column `idx` with `cell`; the other buffers
    /// and all the types stay.
    pub fn store(&mut self, idx: usize, cell: Option<&[u8]>)
        requires
            idx < old(self)@.len(),
        ensures
            final(self)@ == old(self)@.update(
                idx as int,
                BindView {
                    tpe: old(self)@[idx as int].tpe,
                    value: match cell {
                        Some(bytes) => Some(bytes@),
                        None => None,
                    },
                },
            ),
    {
        let mut bind = BindData::for_output(self.data[idx].bind_type());
        bind.store(cell);
        self.data.set(idx, bind);
        assert(self@ =~= old(self)@.update(
            idx as int,
            BindView {
                tpe: old(self)@[idx as int].tpe,
                value: match cell {
                    Some(bytes) => Some(bytes@),
                    None => None,
                },
            },
        ));
    }
}

} // verus!
