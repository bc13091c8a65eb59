use crate::de::db_value::DbValue;
use vstd::prelude::*;

verus! {

/// A row of database values, as a driver represents it.
///
/// A row hands its values out one by one, in the order of its columns. Its
/// model is the sequence of the values not yet handed out, together with
/// the names of the columns of the complete row.
#[allow(clippy::len_without_is_empty)]
pub trait DeserializableRow: Sized {
    /// The value type used by the database driver.
    type Value: DbValue;

    /// The values not yet handed out, in the order of their columns.
    spec fn remaining(&self) -> Seq<Self::Value>;

    /// The names of the columns of a complete row.
    spec fn field_names(&self) -> Seq<Seq<char>>;

    /// Returns the current length of the row, which each call of `next`
    /// decrements.
    fn len(&self) -> (len: usize)
        ensures
            len == self.remaining().len(),
    ;

    /// Removes and returns the next value.
    fn next(&mut self) -> (value: Option<Self::Value>)
        ensures
            final(self).field_names() == old(self).field_names(),
            old(self).remaining().len() == 0 ==> value is None && final(self).remaining() == old(self).remaining(),
            old(self).remaining().len() > 0 ==> value == Some(old(self).remaining()[0]) && final(self).remaining() == old(self).remaining().drop_first(),
    ;

    /// Returns the number of fields in a complete row.
    fn number_of_fields(&self) -> (count: usize)
        ensures
            count == self.field_names().len(),
    ;

    /// Returns the name of the column at the specified index.
    fn field_name(&self, field_idx: usize) -> (name: Option<&str>)
        ensures
            field_idx < self.field_names().len() ==> (name matches Some(s) && s@
                == self.field_names()[field_idx as int]),
            field_idx >= self.field_names().len() ==> name is None,
    ;
}

/// The index of the column of the next value, in a row of which `remaining`
/// of `fields` values are left.
pub open spec fn cursor(remaining: nat, fields: nat) -> Option<nat> {
    if remaining <= fields {
        Some((fields - remaining) as nat)
    } else {
        None
    }
}

/// The name of the column of the next value of the row, if it has one.
pub open spec fn next_name<R: DeserializableRow>(row: R) -> Option<Seq<char>> {
    match cursor(row.remaining().len(), row.field_names().len()) {
        Some(idx) => if idx < row.field_names().len() {
            Some(row.field_names()[idx as int])
        } else {
            None
        },
        None => None,
    }
}

} // verus!
