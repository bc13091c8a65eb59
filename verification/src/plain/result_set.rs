use crate::de::row::Row;
use crate::de::{DbValue, DeserializableResultSet, DeserializableRow, DeserializationError};
use crate::plain::field_names::FieldNames;
use crate::plain::value::Value;
use std::sync::Arc;
use vstd::prelude::*;

verus! {

/// A row of a result of plain values.
pub type PlainRow = Row<FieldNames, Value>;

/// A result in memory, of values of any kind. Rows are added with `push`
/// and come out in the order in which they were added. All its rows share
/// one set of metadata.
pub struct ResultSet<TV: DbValue> {
    rows: Vec<Row<FieldNames, TV>>,
    md: Arc<FieldNames>,
}

/// Another handle on shared data.
///
/// Stands for `Arc::clone`: the new handle points to the same data, so
/// what it holds equals what the given handle holds.
#[verifier::external_body]
fn share<T>(handle: &Arc<T>) -> (shared: Arc<T>)
    ensures
        *shared == **handle,
{
    Arc::clone(handle)
}

impl<TV: DbValue> ResultSet<TV> {
    /// The rows not yet handed out.
    pub closed spec fn view(&self) -> Seq<Row<FieldNames, TV>> {
        self.rows@
    }

    /// The names of the columns.
    pub closed spec fn names(&self) -> Seq<Seq<char>> {
        self.md@
    }

    /// An empty result with columns of the given names.
    pub fn new(fields: &[&'static str]) -> (rs: ResultSet<TV>)
        ensures
            rs@.len() == 0,
            rs.names().len() == fields@.len(),
            forall|i: int| 0 <= i < fields@.len() ==> rs.names()[i] == fields@[i]@,
    {
        ResultSet { rows: Vec::new(), md: Arc::new(FieldNames::new(fields)) }
    }

    /// Adds a row of the given values, one for each column.
    pub fn push(&mut self, values: Vec<TV>)
        requires
            values@.len() == old(self).names().len(),
        ensures
            final(self).names() == old(self).names(),
            final(self)@.len() == old(self)@.len() + 1,
            final(self)@.drop_last() == old(self)@,
            final(self)@.last().remaining() == values@,
            final(self)@.last().field_names() == old(self).names(),
    {
        let ghost before = self.rows@;
        let ghost content = values@;
        let row = Row::new(share(&self.md), values);
        self.rows.push(row);
        proof {
            assert(self.rows@.drop_last() =~= before);
        }
    }

    /// The number of rows not yet handed out.
    pub fn len(&self) -> (len: usize)
        ensures
            len == self@.len(),
    {
        self.rows.len()
    }
}

impl<TV: DbValue> DeserializableResultSet for ResultSet<TV> {
    type Row = Row<FieldNames, TV>;

    open spec fn rows(&self) -> Seq<Row<FieldNames, TV>> {
        self@
    }

    open spec fn field_names(&self) -> Seq<Seq<char>> {
        self.names()
    }

    open spec fn is_loaded(&self) -> bool {
        true
    }

    fn has_multiple_rows(&mut self) -> (multiple: Result<bool, DeserializationError>) {
        Ok(self.rows.len() > 1)
    }

    fn next(&mut self) -> (row: Result<Option<Row<FieldNames, TV>>, DeserializationError>) {
        if self.rows.len() == 0 {
            Ok(None)
        } else {
            let first = self.rows.remove(0);
            proof {
                assert(old(self).rows@.remove(0) =~= old(self).rows@.drop_first());
            }
            Ok(Some(first))
        }
    }

    fn number_of_fields(&self) -> (count: usize) {
        self.md.number_of_fields()
    }

    fn field_name(&self, field_idx: usize) -> (name: Option<&str>) {
        self.md.field_name(field_idx)
    }
}

} // verus!
