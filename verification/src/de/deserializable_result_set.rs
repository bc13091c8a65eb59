use crate::de::deserializable_row::DeserializableRow;
use crate::de::deserialization_error::DeserializationError;
use vstd::prelude::*;

verus! {

/// A database result, as a driver represents it.
///
/// A result hands its rows out one by one. Its model is the sequence of the
/// rows not yet handed out, those that are not yet fetched included,
/// together with the names of its columns. Looking for rows may mean
/// fetching them, and so may fail, unless the result is loaded: a result
/// that holds all its rows in memory says so, and then never fails.
pub trait DeserializableResultSet: Sized {
    /// Concrete type for the rows.
    type Row: DeserializableRow;

    /// The rows not yet handed out, those not yet fetched included.
    spec fn rows(&self) -> Seq<Self::Row>;

    /// The names of the columns.
    spec fn field_names(&self) -> Seq<Seq<char>>;

    /// Whether all the rows not yet handed out are at hand, so that looking
    /// for rows cannot fail. A result that fetches rows on demand is not
    /// loaded.
    spec fn is_loaded(&self) -> bool;

    /// Returns true if more than one row is contained, rows not yet fetched
    /// included. Fails if fetching fails.
    fn has_multiple_rows(&mut self) -> (multiple: Result<bool, DeserializationError>)
        ensures
            old(self).is_loaded() ==> multiple is Ok,
            multiple matches Ok(answer) ==> {
                &&& answer == (old(self).rows().len() > 1)
                &&& final(self).rows() == old(self).rows()
                &&& final(self).field_names() == old(self).field_names()
                &&& final(self).is_loaded() == old(self).is_loaded()
            },
    ;

    /// Removes the next row and returns it, or `None` if the result is
    /// used up. Fails if fetching fails.
    fn next(&mut self) -> (row: Result<Option<Self::Row>, DeserializationError>)
        ensures
            old(self).is_loaded() ==> row is Ok && final(self).is_loaded(),
            match row {
                Ok(Some(first)) => {
                    &&& old(self).rows().len() > 0
                    &&& first == old(self).rows()[0]
                    &&& final(self).rows() == old(self).rows().drop_first()
                    &&& final(self).field_names() == old(self).field_names()
                },
                Ok(None) => {
                    &&& old(self).rows().len() == 0
                    &&& final(self).rows() == old(self).rows()
                    &&& final(self).field_names() == old(self).field_names()
                },
                Err(_) => true,
            },
    ;

    /// Returns the number of fields in each complete row.
    fn number_of_fields(&self) -> (count: usize)
        ensures
            count == self.field_names().len(),
    ;

    /// Returns the name of the column at the specified index.
    fn field_name(&self, field_idx: usize) -> (name: Option<&str>)
        ensures
            field_idx < self.field_names().len() ==> (name matches Some(s) && s@
                == self.field_names()[field_idx as int]),
            field_idx >= self.field_names().len() ==> name is None,
    ;
}

} // verus!
