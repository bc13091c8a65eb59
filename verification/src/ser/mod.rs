//! Turning the primitive values of a structured value into database
//! parameters.
//!
//! A driver that is to fill the parameters of a prepared statement has a
//! list of descriptors, one for each parameter, which implement
//! [`DbvFactory`]. The caller hands over a tuple or a struct of values. Its
//! traversal, in the order of its fields, yields the primitive values that
//! it holds, and [`to_params`] makes a parameter of each with the
//! descriptor at the same position.
//!
//! Callers need not tell nullable parameters from others, except that an
//! absent value makes no parameter that is not nullable.
mod dbv_factory;
mod primitive;
mod serialization_error;
mod serializer;

pub use self::dbv_factory::{built, DbvFactory};
pub use self::primitive::{Primitive, PrimitiveView};
pub use self::serialization_error::{
    parse_error, type_error, SerializationError, SerializationErrorView,
};
pub use self::serializer::{fails_with, head, tail, too_many, write_answer, Serializer};

use vstd::prelude::*;

verus! {

/// The contents of the primitive values, in their order.
pub open spec fn views(values: Seq<Primitive>) -> Seq<PrimitiveView> {
    values.map_values(|value: Primitive| value@)
}

/// Whether `made` can be the parameters that the first descriptors made of
/// the first values, each descriptor of the value at its own position.
pub open spec fn prefix_built<DF: DbvFactory>(
    values: Seq<PrimitiveView>,
    metadata: Seq<DF>,
    made: Seq<DF::DBV>,
) -> bool {
    &&& made.len() <= values.len()
    &&& made.len() <= metadata.len()
    &&& forall|i: int|
        0 <= i < made.len() ==> #[trigger] metadata[i].builds(
            values[i],
            Ok::<DF::DBV, SerializationErrorView>(made[i]),
        )
}

/// Whether the descriptors can make `outcome` of the values.
///
/// * Success is one parameter for each value, made by the descriptor at the
///   position of the value. Descriptors may be left over.
/// * Failure comes at the first value of which no parameter is made: the
///   error is that of the descriptor at its position, or
///   `StructuralMismatch` if no descriptor is left for it.
pub open spec fn params_built<DF: DbvFactory>(
    values: Seq<PrimitiveView>,
    metadata: Seq<DF>,
    outcome: Result<Vec<DF::DBV>, SerializationError>,
) -> bool {
    match outcome {
        Ok(output) => output@.len() == values.len() && prefix_built(values, metadata, output@),
        Err(error) => exists|made: Seq<DF::DBV>|
            {
                &&& #[trigger] prefix_built(values, metadata, made)
                &&& made.len() < values.len()
                &&& if made.len() < metadata.len() {
                    metadata[made.len() as int].builds(
                        values[made.len() as int],
                        Err::<DF::DBV, SerializationErrorView>(error@),
                    )
                } else {
                    error@ == too_many()
                }
            },
    }
}

/// Makes database values of the primitive values of an input, taken in
/// the order in which its traversal meets them: the i-th value is made
/// into a parameter by the i-th descriptor.
///
/// Database drivers use this in their implementation, for example behind
/// the function that adds a row of parameters to a prepared statement.
///
/// More values than descriptors are an error. More descriptors than
/// values are not: it is the caller's part to compare the length of the
/// result with that of the list of descriptors.
pub fn to_params<DF: DbvFactory>(values: &[Primitive], metadata: &[DF]) -> (outcome: Result<
    Vec<DF::DBV>,
    SerializationError,
>)
    ensures
        params_built(views(values@), metadata@, outcome),
{
    let mut serializer = Serializer::new(metadata);
    let mut i: usize = 0;
    while i < values.len()
        invariant
            i <= values.len(),
            serializer.descriptors() == metadata@,
            serializer.consumed() == i,
            serializer.output().len() == i,
            prefix_built(views(values@), metadata@, serializer.output()),
        decreases values.len() - i,
    {
        let ghost before = serializer;
        match serializer.write(&values[i]) {
            Ok(()) => {
                proof {
                    let made = serializer.output();
                    assert(made.drop_last() == before.output());
                    assert forall|k: int| 0 <= k < made.len() implies #[trigger] metadata@[k].builds(
                        views(values@)[k],
                        Ok::<DF::DBV, SerializationErrorView>(made[k]),
                    ) by {
                        if k < made.len() - 1 {
                            assert(made[k] == before.output()[k]);
                        } else {
                            assert(made[k] == made.last());
                        }
                    }
                }
            },
            Err(error) => {
                proof {
                    assert(prefix_built(views(values@), metadata@, before.output()));
                }
                return Err(error);
            },
        }
        i = i + 1;
    }
    Ok(serializer.into_inner())
}

/// A list of values that succeeds yields exactly one parameter for each
/// value, and needs at least as many descriptors as values.
pub proof fn lemma_one_parameter_for_each_value<DF: DbvFactory>(
    values: Seq<PrimitiveView>,
    metadata: Seq<DF>,
    output: Vec<DF::DBV>,
)
    requires
        params_built(values, metadata, Ok::<Vec<DF::DBV>, SerializationError>(output)),
    ensures
        output@.len() == values.len(),
        values.len() <= metadata.len(),
{
}

/// More values than descriptors never succeed.
pub proof fn lemma_too_many_values_fail<DF: DbvFactory>(
    values: Seq<PrimitiveView>,
    metadata: Seq<DF>,
    outcome: Result<Vec<DF::DBV>, SerializationError>,
)
    requires
        values.len() > metadata.len(),
        params_built(values, metadata, outcome),
    ensures
        outcome is Err,
{
}

} // verus!
