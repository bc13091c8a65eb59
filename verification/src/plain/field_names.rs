use crate::de::row::Metadata;
use vstd::prelude::*;

verus! {

/// The names of the columns of a result.
#[derive(Debug)]
pub struct FieldNames {
    fields: Vec<String>,
}

impl FieldNames {
    /// The names, in the order of the columns.
    pub closed spec fn view(&self) -> Seq<Seq<char>> {
        Seq::new(self.fields@.len(), |i: int| self.fields@[i]@)
    }

    /// The metadata of a result whose columns have the given names.
    pub fn new(fields: &[&'static str]) -> (names: FieldNames)
        ensures
            names@.len() == fields@.len(),
            forall|i: int| 0 <= i < fields@.len() ==> names@[i] == fields@[i]@,
    {
        let mut owned: Vec<String> = Vec::new();
        let mut i: usize = 0;
        while i < fields.len()
            invariant
                i <= fields.len(),
                owned@.len() == i,
                forall|k: int| 0 <= k < i ==> owned@[k]@ == fields@[k]@,
            decreases fields.len() - i,
        {
            owned.push(fields[i].to_owned());
            i = i + 1;
        }
        FieldNames { fields: owned }
    }

    /// The number of columns.
    pub fn number_of_fields(&self) -> (count: usize)
        ensures
            count == self@.len(),
    {
        self.fields.len()
    }

    /// The name of the column at the index, if there is such a column.
    pub fn field_name(&self, i: usize) -> (name: Option<&str>)
        ensures
            i < self@.len() ==> (name matches Some(s) && s@ == self@[i as int]),
            i >= self@.len() ==> name is None,
    {
        if i < self.fields.len() {
            Some(self.fields[i].as_str())
        } else {
            None
        }
    }
}

impl Metadata for FieldNames {
    open spec fn names(&self) -> Seq<Seq<char>> {
        self@
    }

    fn number_of_fields(&self) -> (count: usize) {
        self.fields.len()
    }

    fn get_fieldname(&self, field_idx: usize) -> (name: Option<&String>) {
        if field_idx < self.fields.len() {
            Some(&self.fields[field_idx])
        } else {
            None
        }
    }
}

} // verus!
