use crate::de::db_value::DbValue;
use crate::de::deserializable_row::DeserializableRow;
use crate::de::deserialization_error::DeserializationError;
use crate::de::row::metadata::Metadata;
use crate::de::row_deserializer::{impl_err, is_usage};
use std::sync::Arc;
use vstd::prelude::*;

verus! {

/// A single line of a result: its values, and the metadata that all the
/// rows of the result share.
///
/// The metadata are never changed through a row.
pub struct Row<MD: Metadata, TV: DbValue> {
    metadata: Arc<MD>,
    values: Vec<TV>,
}

impl<MD, TV> Row<MD, TV> where MD: Metadata, TV: DbValue {
    /// The values that the row still holds, in the order of their columns.
    pub closed spec fn values(&self) -> Seq<TV> {
        self.values@
    }

    /// The metadata of the result that the row belongs to.
    pub closed spec fn metadata(&self) -> MD {
        *self.metadata
    }

    /// Factory for row.
    pub fn new(metadata: Arc<MD>, values: Vec<TV>) -> (row: Row<MD, TV>)
        ensures
            row.values() == values@,
            row.metadata() == *metadata,
    {
        Row { metadata, values }
    }

    /// Returns a clone of the i-th of the values that the row still holds,
    /// and leaves the row as it is. Fails with `Usage` if there is no such
    /// value.
    pub fn cloned_value(&self, i: usize) -> (outcome: Result<TV, DeserializationError>) where
        TV: Clone,

        ensures
            i < self.values().len() ==> (outcome matches Ok(value) && cloned(
                self.values()[i as int],
                value,
            )),
            i >= self.values().len() ==> is_usage(
                outcome,
                "element with index {} does not exist"@,
            ),
    {
        if i < self.values.len() {
            Ok(self.values[i].clone())
        } else {
            Err(impl_err("element with index {} does not exist"))
        }
    }
}

impl<MD: Metadata, TV: DbValue> DeserializableRow for Row<MD, TV> {
    type Value = TV;

    open spec fn remaining(&self) -> Seq<TV> {
        self.values()
    }

    open spec fn field_names(&self) -> Seq<Seq<char>> {
        self.metadata().names()
    }

    fn len(&self) -> (len: usize) {
        self.values.len()
    }

    fn next(&mut self) -> (value: Option<TV>) {
        if self.values.len() == 0 {
            None
        } else {
            let value = self.values.remove(0);
            proof {
                assert(old(self).values@.remove(0) =~= old(self).values@.drop_first());
            }
            Some(value)
        }
    }

    fn number_of_fields(&self) -> (count: usize) {
        self.metadata.number_of_fields()
    }

    fn field_name(&self, field_idx: usize) -> (name: Option<&str>) {
        match self.metadata.get_fieldname(field_idx) {
            Some(name) => Some(name.as_str()),
            None => None,
        }
    }
}

} // verus!
