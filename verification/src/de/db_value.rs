use crate::de::db_value_into::DbValueInto;
use vstd::prelude::*;

verus! {

/// A single database value, as a driver represents it.
///
/// The value can be asked whether it is null, and can be converted into each
/// of the primitive types that a reader hands out. Conversions into
/// floating-point numbers are a matter between the driver and its caller: a
/// reader hands the value itself out where one is asked for.
pub trait DbValue: Sized + DbValueInto<bool> + DbValueInto<u8> + DbValueInto<u16> + DbValueInto<
    u32,
> + DbValueInto<u64> + DbValueInto<i8> + DbValueInto<i16> + DbValueInto<i32> + DbValueInto<
    i64,
> + DbValueInto<String> + DbValueInto<Vec<u8>> {
    /// Whether the value is null.
    spec fn null(&self) -> bool;

    /// Returns true if this is a null value.
    fn is_null(&self) -> (null: bool)
        ensures
            null == self.null(),
    ;
}

} // verus!
