use crate::ser::dbv_factory::{built, DbvFactory};
use crate::ser::primitive::{Primitive, PrimitiveView};
use crate::ser::serialization_error::{type_error, SerializationError, SerializationErrorView};
use vstd::prelude::*;
use vstd::string::*;

verus! {

/// Turns primitive values into a row of parameters for a database command.
///
/// The serializer holds the ordered list of the descriptors of the
/// parameters, a cursor into that list, and the parameters made so far.
/// Each primitive value takes the descriptor at the cursor, which makes
/// the parameter. A value for which no descriptor is left is refused.
///
/// Descriptors that are left unused at the end are not an error here: who
/// needs every parameter filled compares [`Serializer::consumed_count`]
/// with the length of the list.
pub struct Serializer<'m, DF: DbvFactory> {
    output: Vec<DF::DBV>,
    metadata: &'m [DF],
    cursor: usize,
}

/// Whether the outcome is an error with the given content.
pub open spec fn fails_with<T>(
    outcome: Result<T, SerializationError>,
    content: SerializationErrorView,
) -> bool {
    outcome matches Err(error) && error@ == content
}

/// The error for a value for which no descriptor is left.
pub open spec fn too_many() -> SerializationErrorView {
    SerializationErrorView::StructuralMismatch("too many values specified"@)
}

/// Whether `outcome` and the serializer `after` can be what the serializer
/// `before` makes of the primitive value.
///
/// With no descriptor left, the value is refused and nothing changes.
/// Else the descriptor at the cursor is consumed, whatever comes of it: the
/// parameter that it made is appended, or its error is handed on.
pub open spec fn write_answer<DF: DbvFactory>(
    before: Serializer<DF>,
    value: PrimitiveView,
    after: Serializer<DF>,
    outcome: Result<(), SerializationError>,
) -> bool {
    &&& after.descriptors() == before.descriptors()
    &&& if before.consumed() >= before.descriptors().len() {
        &&& after == before
        &&& fails_with(outcome, too_many())
    } else {
        &&& after.consumed() == before.consumed() + 1
        &&& match outcome {
            Ok(()) => {
                &&& after.output().len() == before.output().len() + 1
                &&& after.output().drop_last() == before.output()
                &&& before.descriptors()[before.consumed() as int].builds(
                    value,
                    Ok(after.output().last()),
                )
            },
            Err(error) => {
                &&& after.output() == before.output()
                &&& before.descriptors()[before.consumed() as int].builds(value, Err(error@))
            },
        }
    }
}

impl<'m, DF: DbvFactory> Serializer<'m, DF> {
    /// The parameters made so far.
    pub closed spec fn output(&self) -> Seq<DF::DBV> {
        self.output@
    }

    /// The descriptors of the parameters, in their order.
    pub closed spec fn descriptors(&self) -> Seq<DF> {
        self.metadata@
    }

    /// The number of descriptors consumed so far.
    pub closed spec fn consumed(&self) -> nat {
        self.cursor as nat
    }

    /// A serializer for the given list of descriptors, with nothing made
    /// and nothing consumed.
    pub fn new(metadata: &'m [DF]) -> (serializer: Self)
        ensures
            serializer.descriptors() == metadata@,
            serializer.output() == Seq::<DF::DBV>::empty(),
            serializer.consumed() == 0,
    {
        Serializer { output: Vec::new(), metadata, cursor: 0 }
    }

    /// The number of descriptors consumed so far.
    pub fn consumed_count(&self) -> (count: usize)
        ensures
            count == self.consumed(),
    {
        self.cursor
    }

    /// Takes the descriptor at the cursor. Fails with
    /// `StructuralMismatch` if none is left.
    pub fn get_current_field(&mut self) -> (outcome: Result<&'m DF, SerializationError>)
        ensures
            final(self).descriptors() == old(self).descriptors(),
            final(self).output() == old(self).output(),
            old(self).consumed() < old(self).descriptors().len() ==> {
                &&& outcome matches Ok(descriptor)
                &&& *descriptor == old(self).descriptors()[old(self).consumed() as int]
                &&& final(self).consumed() == old(self).consumed() + 1
            },
            old(self).consumed() >= old(self).descriptors().len() ==> {
                &&& fails_with(outcome, too_many())
                &&& *final(self) == *old(self)
            },
    {
        if self.cursor < self.metadata.len() {
            let descriptor = &self.metadata[self.cursor];
            self.cursor = self.cursor + 1;
            Ok(descriptor)
        } else {
            Err(SerializationError::StructuralMismatch("too many values specified"))
        }
    }

    /// Appends a parameter.
    pub fn push(&mut self, value: DF::DBV)
        ensures
            final(self).descriptors() == old(self).descriptors(),
            final(self).consumed() == old(self).consumed(),
            final(self).output() == old(self).output().push(value),
    {
        self.output.push(value);
    }

    /// Hands out the parameters made so far.
    pub fn into_inner(self) -> (output: Vec<DF::DBV>)
        ensures
            output@ == self.output(),
    {
        self.output
    }

    /// Records what a descriptor made: appends the parameter, or hands the
    /// error on.
    pub fn record(&mut self, made: Result<DF::DBV, SerializationError>) -> (outcome: Result<
        (),
        SerializationError,
    >)
        ensures
            final(self).descriptors() == old(self).descriptors(),
            final(self).consumed() == old(self).consumed(),
            match made {
                Ok(value) => outcome is Ok && final(self).output() == old(self).output().push(
                    value,
                ),
                Err(error) => outcome == Err::<(), SerializationError>(error) && final(self).output() == old(self).output(),
            },
    {
        match made {
            Ok(value) => {
                self.push(value);
                Ok(())
            },
            Err(error) => Err(error),
        }
    }

    /// Serializes one primitive value; see [`write_answer`].
    pub fn write(&mut self, value: &Primitive) -> (outcome: Result<(), SerializationError>)
        ensures
            write_answer(*old(self), value@, *final(self), outcome),
    {
        let descriptor = match self.get_current_field() {
            Ok(descriptor) => descriptor,
            Err(error) => {
                return Err(error);
            },
        };
        let made = match value {
            Primitive::Bool(v) => descriptor.serialize_bool(*v),
            Primitive::I8(v) => descriptor.serialize_i8(*v),
            Primitive::I16(v) => descriptor.serialize_i16(*v),
            Primitive::I32(v) => descriptor.serialize_i32(*v),
            Primitive::I64(v) => descriptor.serialize_i64(*v),
            Primitive::U8(v) => descriptor.serialize_u8(*v),
            Primitive::U16(v) => descriptor.serialize_u16(*v),
            Primitive::U32(v) => descriptor.serialize_u32(*v),
            Primitive::U64(v) => descriptor.serialize_u64(*v),
            Primitive::Char(v) => descriptor.serialize_char(*v),
            Primitive::Str(v) => descriptor.serialize_str(v.as_str()),
            Primitive::Bytes(v) => descriptor.serialize_bytes(v.as_slice()),
            Primitive::Null => descriptor.serialize_none(),
        };
        let ghost before = self.output();
        let outcome = self.record(made);
        proof {
            if outcome is Ok {
                assert(self.output().drop_last() =~= before);
            }
        }
        outcome
    }

    /// Refuses a value of a shape that has no counterpart among database
    /// parameters, such as a struct without fields or a variant without
    /// data. The descriptor at the cursor is consumed, and the error is
    /// of the kind `Type` and names the shape and the descriptor; with no
    /// descriptor left it is `StructuralMismatch`.
    pub fn refuse(&mut self, shape: &'static str) -> (error: SerializationError)
        ensures
            final(self).descriptors() == old(self).descriptors(),
            final(self).output() == old(self).output(),
            old(self).consumed() < old(self).descriptors().len() ==> {
                &&& final(self).consumed() == old(self).consumed() + 1
                &&& error@ == (SerializationErrorView::Type {
                    value_type: shape@,
                    db_type: old(self).descriptors()[old(self).consumed() as int].name(),
                })
            },
            old(self).consumed() >= old(self).descriptors().len() ==> {
                &&& *final(self) == *old(self)
                &&& error@ == too_many()
            },
    {
        match self.get_current_field() {
            Ok(descriptor) => type_error(shape, descriptor.descriptor()),
            Err(error) => error,
        }
    }

    /// Refuses a struct without fields; see [`Serializer::refuse`].
    pub fn serialize_unit_struct(&mut self) -> (error: SerializationError)
        ensures
            final(self).descriptors() == old(self).descriptors(),
            final(self).output() == old(self).output(),
            old(self).consumed() < old(self).descriptors().len() ==> {
                &&& final(self).consumed() == old(self).consumed() + 1
                &&& error@ == (SerializationErrorView::Type {
                    value_type: "unit_struct"@,
                    db_type: old(self).descriptors()[old(self).consumed() as int].name(),
                })
            },
            old(self).consumed() >= old(self).descriptors().len() ==> {
                &&& *final(self) == *old(self)
                &&& error@ == too_many()
            },
    {
        self.refuse("unit_struct")
    }

    /// Refuses a variant without data; see [`Serializer::refuse`].
    pub fn serialize_unit_variant(&mut self) -> (error: SerializationError)
        ensures
            final(self).descriptors() == old(self).descriptors(),
            final(self).output() == old(self).output(),
            old(self).consumed() < old(self).descriptors().len() ==> {
                &&& final(self).consumed() == old(self).consumed() + 1
                &&& error@ == (SerializationErrorView::Type {
                    value_type: "unit_variant"@,
                    db_type: old(self).descriptors()[old(self).consumed() as int].name(),
                })
            },
            old(self).consumed() >= old(self).descriptors().len() ==> {
                &&& *final(self) == *old(self)
                &&& error@ == too_many()
            },
    {
        self.refuse("unit_variant")
    }

    /// Refuses a variant with named fields: the database knows no tagged
    /// unions. No descriptor is consumed.
    pub fn serialize_struct_variant(&self) -> (error: SerializationError)
        ensures
            error@ == SerializationErrorView::StructuralMismatch(
                "serialize_struct_variant() not implemented"@,
            ),
    {
        SerializationError::StructuralMismatch("serialize_struct_variant() not implemented")
    }
}

/// The first `count` characters of the text, or all of it if it has fewer.
pub fn head(count: usize, s: &str) -> (head: String)
    ensures
        head@ == s@.subrange(0, if count <= s@.len() { count as int } else { s@.len() as int }),
{
    let len = s.unicode_len();
    let end = if count <= len {
        count
    } else {
        len
    };
    s.substring_char(0, end).to_owned()
}

/// The last `count` characters of the text, or all of it if it has fewer.
pub fn tail(count: usize, s: &str) -> (tail: String)
    ensures
        tail@ == s@.subrange(
            if count <= s@.len() { s@.len() - count } else { 0 },
            s@.len() as int,
        ),
{
    let len = s.unicode_len();
    let start = if count <= len {
        len - count
    } else {
        0
    };
    s.substring_char(start, len).to_owned()
}

} // verus!
