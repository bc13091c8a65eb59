use crate::de::{field_outcome, DeserializationErrorView, FieldStep, Hint};
use crate::plain::parameter_type::{ParameterKind, ParameterType};
use crate::plain::result_set::PlainRow;
use crate::plain::value::Value;
use crate::ser::{params_built, DbvFactory, PrimitiveView, SerializationError};
use vstd::prelude::*;

verus! {

/// Whether the outcome of a read is a text of the given content.
pub open spec fn is_text(
    outcome: Result<FieldStep<Value>, DeserializationErrorView>,
    content: Seq<char>,
) -> bool {
    outcome matches Ok(FieldStep::Text(text)) && text@ == content
}

/// Round trip: a number of 32 bits, a string and an absent number, made
/// into parameters by descriptors of their kinds, always succeed, and the
/// three parameters read back as the same number, the same string and an
/// absent value.
pub proof fn lemma_round_trip(
    a: i32,
    b: Seq<char>,
    outcome: Result<Vec<Value>, SerializationError>,
)
    requires
        params_built(
            seq![PrimitiveView::I32(a), PrimitiveView::Str(b), PrimitiveView::Null],
            seq![
                ParameterType { kind: ParameterKind::Int, nullable: false },
                ParameterType { kind: ParameterKind::Text, nullable: false },
                ParameterType { kind: ParameterKind::Int, nullable: true },
            ],
            outcome,
        ),
    ensures
        outcome matches Ok(params) && {
            &&& params@.len() == 3
            &&& field_outcome(params@[0], Hint::I32) == Ok::<
                FieldStep<Value>,
                DeserializationErrorView,
            >(FieldStep::I32(a))
            &&& is_text(field_outcome(params@[1], Hint::Text), b)
            &&& field_outcome(params@[2], Hint::Optional) == Ok::<
                FieldStep<Value>,
                DeserializationErrorView,
            >(FieldStep::Absent)
        },
{
    let values = seq![PrimitiveView::I32(a), PrimitiveView::Str(b), PrimitiveView::Null];
    let metadata = seq![
        ParameterType { kind: ParameterKind::Int, nullable: false },
        ParameterType { kind: ParameterKind::Text, nullable: false },
        ParameterType { kind: ParameterKind::Int, nullable: true },
    ];
    match outcome {
        Ok(params) => {
            assert(metadata[0].builds(values[0], Ok(params@[0])));
            assert(metadata[1].builds(values[1], Ok(params@[1])));
            assert(metadata[2].builds(values[2], Ok(params@[2])));
        },
        Err(error) => {
            assert(values.len() == 3);
            assert(metadata.len() == 3);
        },
    }
}

/// A peek is idempotent: two clones of the same value of a row hold what
/// that value holds, and so hold the same.
pub proof fn lemma_peek_is_idempotent(row: PlainRow, i: int, first: Value, second: Value)
    requires
        0 <= i < row.values().len(),
        cloned(row.values()[i], first),
        cloned(row.values()[i], second),
    ensures
        first@ == row.values()[i]@,
        second@ == first@,
{
}

} // verus!
