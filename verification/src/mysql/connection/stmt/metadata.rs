//! What a statement says of the columns of its result.

use vstd::prelude::*;
use crate::mysql::backend::MysqlType;

verus! {

/// The description of one column of a statement's result.
pub struct MysqlFieldMetadata {
    name: Option<String>,
    tpe: MysqlType,
}

/// A `MysqlFieldMetadata` as a mathematical value.
pub struct FieldMetadataView {
    pub name: Option<Seq<char>>,
    pub tpe: MysqlType,
}

impl View for MysqlFieldMetadata {
    type V = FieldMetadataView;

    closed spec fn view(&self) -> FieldMetadataView {
        FieldMetadataView {
            name: match self.name {
                Some(name) => Some(name@),
                None => None,
            },
            tpe: self.tpe,
        }
    }
}

impl MysqlFieldMetadata {
    /// The description of a column called `name`, if it has a name, of type
    /// `tpe`.
    pub fn new(name: Option<String>, tpe: MysqlType) -> (field: Self)
        ensures
            field@ == (FieldMetadataView {
                name: match name {
                    Some(n) => Some(n@),
                    None => None,
                },
                tpe,
            }),
    {
        MysqlFieldMetadata { name, tpe }
    }

    /// The column's name, if it has one.
    pub fn field_name(&self) -> (name: Option<&str>)
        ensures
            name is Some <==> self@.name is Some,
            name matches Some(n) ==> n@ == self@.name.unwrap(),
    {
        match &self.name {
            Some(name) => Some(name.as_str()),
            None => None,
        }
    }

    /// The column's type.
    pub fn field_type(&self) -> (tpe: MysqlType)
        ensures
            tpe == self@.tpe,
    {
        self.tpe
    }

    /// A copy of the description.
    pub fn duplicate(&self) -> (copy: Self)
        ensures
            copy@ == self@,
    {
        MysqlFieldMetadata {
            name: match &self.name {
                Some(name) => Some(name.clone()),
                None => None,
            },
            tpe: self.tpe,
        }
    }
}

/// The descriptions of all the columns of a statement's result, in order.
pub struct StatementMetadata {
    fields: Vec<MysqlFieldMetadata>,
}

impl View for StatementMetadata {
    type V = Seq<FieldMetadataView>;

    closed spec fn view(&self) -> Seq<FieldMetadataView> {
        Seq::new(self.fields@.len(), |i: int| self.fields@[i]@)
    }
}

impl StatementMetadata {
    /// The metadata made of `fields`.
    pub fn new(fields: Vec<MysqlFieldMetadata>) -> (metadata: Self)
        ensures
            metadata@.len() == fields@.len(),
            forall|i: int| 0 <= i < fields@.len() ==> #[trigger] metadata@[i] == fields@[i]@,
    {
        StatementMetadata { fields }
    }

    /// The descriptions of the columns.
    pub fn fields(&self) -> (fields: &[MysqlFieldMetadata])
        ensures
            fields@.len() == self@.len(),
            forall|i: int| 0 <= i < fields@.len() ==> (#[trigger] fields@[i])@ == self@[i],
    {
        self.fields.as_slice()
    }

    /// A copy of the metadata.
    pub fn duplicate(&self) -> (copy: Self)
        ensures
            copy@ == self@,
    {
        let mut fields: Vec<MysqlFieldMetadata> = Vec::new();
        let mut i: usize = 0;
        while i < self.fields.len()
            invariant
                i <= self.fields@.len(),
                fields@.len() == i,
                forall|k: int| 0 <= k < i ==> (#[trigger] fields@[k])@ == self.fields@[k]@,
            decreases self.fields@.len() - i,
        {
            fields.push(self.fields[i].duplicate());
            i += 1;
        }
        let copy = StatementMetadata { fields };
        assert(copy@ =~= self@);
        copy
    }
}

} // verus!
