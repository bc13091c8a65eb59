use vstd::prelude::*;

verus! {

/// A simple view on the metadata of a result: the names of its columns.
pub trait Metadata {
    /// The names of the columns, in their order.
    spec fn names(&self) -> Seq<Seq<char>>;

    /// Returns the number of fields in each row.
    fn number_of_fields(&self) -> (count: usize)
        ensures
            count == self.names().len(),
    ;

    /// Returns the name of the n-th field; the index of the first field is 0.
    fn get_fieldname(&self, field_idx: usize) -> (name: Option<&String>)
        ensures
            field_idx < self.names().len() ==> (name matches Some(s) && s@
                == self.names()[field_idx as int]),
            field_idx >= self.names().len() ==> name is None,
    ;
}

} // verus!
