use crate::de::conversion_error::{ConversionError, ConversionErrorView};
use vstd::prelude::*;

verus! {

/// Converts a database value into one specific type.
///
/// A driver implements this once for each type that a value can be read
/// as. Conversions should be as graceful as possible: a number converts into
/// every numeric type that can hold it, whatever the width of its own
/// kind. One that does not fit fails with
/// [`ConversionError::NumberRange`]; a kind of value with no mapping to the
/// requested type fails with [`ConversionError::ValueType`]; a large
/// object that was only partly loaded and cannot be completed fails with
/// [`ConversionError::Incomplete`]. A conversion never panics.
///
/// Null is no matter of conversion: a reader asks the value whether it is
/// null before it converts it, where the target admits an absent value.
///
/// The model function `converted` says what `try_into` returns. It only
/// serves proofs: an implementation that is not verified may give it any
/// body, since no running program calls it.
pub trait DbValueInto<T>: Sized {
    /// What the conversion yields: the converted value, or the content of
    /// the error.
    spec fn converted(self) -> Result<T, ConversionErrorView>;

    /// Converts the value.
    fn try_into(self) -> (outcome: Result<T, ConversionError>)
        ensures
            conversion_agrees(outcome, self.converted()),
    ;
}

/// Whether the outcome of a conversion is the one that the model names.
pub open spec fn conversion_agrees<T>(
    outcome: Result<T, ConversionError>,
    model: Result<T, ConversionErrorView>,
) -> bool {
    match outcome {
        Ok(value) => model == Ok::<T, ConversionErrorView>(value),
        Err(error) => model == Err::<T, ConversionErrorView>(error@),
    }
}

} // verus!
