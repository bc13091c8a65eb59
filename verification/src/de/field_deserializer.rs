use crate::de::conversion_error::ConversionErrorView;
use crate::de::db_value::DbValue;
use crate::de::db_value_into::DbValueInto;
use crate::de::deserialization_error::{DeserializationError, DeserializationErrorView};
use crate::de::hint::{Hint, Leaf};
use vstd::prelude::*;

verus! {

/// Reads a single database value.
pub struct FieldDeserializer<DBV>(pub DBV);

/// What a value reader does with a hint.
#[derive(Clone, Copy, Debug)]
pub enum FieldPlan {
    /// Convert the value into the primitive type.
    Convert(Leaf),
    /// Tell a null value from a present one.
    Optional,
    /// Hand the reader itself on: a wrapper around one value is transparent.
    Newtype,
    /// Refuse: the shape has no meaning for a single value. The text names
    /// the refused request.
    Refuse(&'static str),
}

/// What a value reader hands out.
pub enum FieldStep<DBV> {
    Bool(bool),
    U8(u8),
    U16(u16),
    U32(u32),
    U64(u64),
    I8(i8),
    I16(i16),
    I32(i32),
    I64(i64),
    Text(String),
    Bytes(Vec<u8>),
    /// A floating-point number was asked for: the value itself, for the
    /// caller to convert, and the width asked for.
    Float(DBV, Leaf),
    /// The value is null, where an optional value was asked for.
    Absent,
    /// The value is not null, where an optional value was asked for: the
    /// reader to take its content from.
    Present(FieldDeserializer<DBV>),
    /// The reader itself, for the content of a wrapper.
    Newtype(FieldDeserializer<DBV>),
}

/// Wraps the error of a failed conversion; keeps a converted value.
pub open spec fn lifted<T>(converted: Result<T, ConversionErrorView>) -> Result<
    T,
    DeserializationErrorView,
> {
    match converted {
        Ok(value) => Ok(value),
        Err(error) => Err(DeserializationErrorView::ConversionError(error)),
    }
}

/// Whether the outcome of a read is the one that the model names.
pub open spec fn outcome_agrees<T>(
    outcome: Result<T, DeserializationError>,
    model: Result<T, DeserializationErrorView>,
) -> bool {
    match outcome {
        Ok(value) => model == Ok::<T, DeserializationErrorView>(value),
        Err(error) => model == Err::<T, DeserializationErrorView>(error@),
    }
}

/// What a value reader does with each hint: it converts the value where a
/// primitive type is named, tells null from present for an optional value,
/// is transparent for a wrapper, and refuses every structure.
pub open spec fn field_plan(hint: Hint) -> FieldPlan {
    match hint {
        Hint::Any => FieldPlan::Refuse("FieldDeserializer::deserialize_any()"),
        Hint::Bool => FieldPlan::Convert(Leaf::Bool),
        Hint::U8 => FieldPlan::Convert(Leaf::U8),
        Hint::U16 => FieldPlan::Convert(Leaf::U16),
        Hint::U32 => FieldPlan::Convert(Leaf::U32),
        Hint::U64 => FieldPlan::Convert(Leaf::U64),
        Hint::I8 => FieldPlan::Convert(Leaf::I8),
        Hint::I16 => FieldPlan::Convert(Leaf::I16),
        Hint::I32 => FieldPlan::Convert(Leaf::I32),
        Hint::I64 => FieldPlan::Convert(Leaf::I64),
        Hint::Single => FieldPlan::Convert(Leaf::Single),
        Hint::Double => FieldPlan::Convert(Leaf::Double),
        Hint::Char => FieldPlan::Refuse("FieldDeserializer::deserialize_char()"),
        Hint::Str => FieldPlan::Convert(Leaf::Text),
        Hint::Text => FieldPlan::Convert(Leaf::Text),
        Hint::Unit => FieldPlan::Refuse("FieldDeserializer::deserialize_unit()"),
        Hint::Optional => FieldPlan::Optional,
        Hint::Sequence => FieldPlan::Refuse("FieldDeserializer::deserialize_seq()"),
        Hint::Dictionary => FieldPlan::Refuse("FieldDeserializer::deserialize_map()"),
        Hint::UnitStruct => FieldPlan::Refuse("FieldDeserializer::deserialize_unit_struct()"),
        Hint::NewtypeStruct => FieldPlan::Newtype,
        Hint::TupleStruct => FieldPlan::Refuse("FieldDeserializer::deserialize_tuple_struct()"),
        Hint::Struct => FieldPlan::Refuse("FieldDeserializer::deserialize_struct()"),
        Hint::Bytes => FieldPlan::Convert(Leaf::Bytes),
        Hint::ByteBuf => FieldPlan::Convert(Leaf::Bytes),
        Hint::Tuple => FieldPlan::Refuse("FieldDeserializer::deserialize_tuple()"),
        Hint::Enum => FieldPlan::Refuse("FieldDeserializer::deserialize_enum()"),
        Hint::Identifier => FieldPlan::Refuse("FieldDeserializer::deserialize_identifier()"),
        Hint::IgnoredAny => FieldPlan::Refuse("FieldDeserializer::deserialize_ignored_any()"),
    }
}

/// What the conversion of a value into a primitive type hands out.
pub open spec fn converted_step<DBV: DbValue>(value: DBV, leaf: Leaf) -> Result<
    FieldStep<DBV>,
    DeserializationErrorView,
> {
    match leaf {
        Leaf::Bool => match lifted(DbValueInto::<bool>::converted(value)) {
            Ok(v) => Ok(FieldStep::Bool(v)),
            Err(e) => Err(e),
        },
        Leaf::U8 => match lifted(DbValueInto::<u8>::converted(value)) {
            Ok(v) => Ok(FieldStep::U8(v)),
            Err(e) => Err(e),
        },
        Leaf::U16 => match lifted(DbValueInto::<u16>::converted(value)) {
            Ok(v) => Ok(FieldStep::U16(v)),
            Err(e) => Err(e),
        },
        Leaf::U32 => match lifted(DbValueInto::<u32>::converted(value)) {
            Ok(v) => Ok(FieldStep::U32(v)),
            Err(e) => Err(e),
        },
        Leaf::U64 => match lifted(DbValueInto::<u64>::converted(value)) {
            Ok(v) => Ok(FieldStep::U64(v)),
            Err(e) => Err(e),
        },
        Leaf::I8 => match lifted(DbValueInto::<i8>::converted(value)) {
            Ok(v) => Ok(FieldStep::I8(v)),
            Err(e) => Err(e),
        },
        Leaf::I16 => match lifted(DbValueInto::<i16>::converted(value)) {
            Ok(v) => Ok(FieldStep::I16(v)),
            Err(e) => Err(e),
        },
        Leaf::I32 => match lifted(DbValueInto::<i32>::converted(value)) {
            Ok(v) => Ok(FieldStep::I32(v)),
            Err(e) => Err(e),
        },
        Leaf::I64 => match lifted(DbValueInto::<i64>::converted(value)) {
            Ok(v) => Ok(FieldStep::I64(v)),
            Err(e) => Err(e),
        },
        Leaf::Single => Ok(FieldStep::Float(value, Leaf::Single)),
        Leaf::Double => Ok(FieldStep::Float(value, Leaf::Double)),
        Leaf::Text => match lifted(DbValueInto::<String>::converted(value)) {
            Ok(v) => Ok(FieldStep::Text(v)),
            Err(e) => Err(e),
        },
        Leaf::Bytes => match lifted(DbValueInto::<Vec<u8>>::converted(value)) {
            Ok(v) => Ok(FieldStep::Bytes(v)),
            Err(e) => Err(e),
        },
    }
}

/// What a value reader over `value` answers to `hint`.
pub open spec fn field_outcome<DBV: DbValue>(value: DBV, hint: Hint) -> Result<
    FieldStep<DBV>,
    DeserializationErrorView,
> {
    match field_plan(hint) {
        FieldPlan::Convert(leaf) => converted_step(value, leaf),
        FieldPlan::Optional => if value.null() {
            Ok(FieldStep::Absent)
        } else {
            Ok(FieldStep::Present(FieldDeserializer(value)))
        },
        FieldPlan::Newtype => Ok(FieldStep::Newtype(FieldDeserializer(value))),
        FieldPlan::Refuse(request) => Err(DeserializationErrorView::NotImplemented(request@)),
    }
}

impl<DBV> FieldDeserializer<DBV> where DBV: DbValue {
    /// The value that the reader holds.
    pub open spec fn value(self) -> DBV {
        self.0
    }

    /// A reader of the given value.
    pub fn new(value: DBV) -> (reader: FieldDeserializer<DBV>)
        ensures
            reader.value() == value,
    {
        FieldDeserializer(value)
    }

    /// Hands the value back.
    pub fn into_inner(self) -> (value: DBV)
        ensures
            value == self.value(),
    {
        self.0
    }

    /// What the reader does with a hint.
    pub fn plan(hint: Hint) -> (plan: FieldPlan)
        ensures
            plan == field_plan(hint),
    {
        match hint {
            Hint::Any => FieldPlan::Refuse("FieldDeserializer::deserialize_any()"),
            Hint::Bool => FieldPlan::Convert(Leaf::Bool),
            Hint::U8 => FieldPlan::Convert(Leaf::U8),
            Hint::U16 => FieldPlan::Convert(Leaf::U16),
            Hint::U32 => FieldPlan::Convert(Leaf::U32),
            Hint::U64 => FieldPlan::Convert(Leaf::U64),
            Hint::I8 => FieldPlan::Convert(Leaf::I8),
            Hint::I16 => FieldPlan::Convert(Leaf::I16),
            Hint::I32 => FieldPlan::Convert(Leaf::I32),
            Hint::I64 => FieldPlan::Convert(Leaf::I64),
            Hint::Single => FieldPlan::Convert(Leaf::Single),
            Hint::Double => FieldPlan::Convert(Leaf::Double),
            Hint::Char => FieldPlan::Refuse("FieldDeserializer::deserialize_char()"),
            Hint::Str => FieldPlan::Convert(Leaf::Text),
            Hint::Text => FieldPlan::Convert(Leaf::Text),
            Hint::Unit => FieldPlan::Refuse("FieldDeserializer::deserialize_unit()"),
            Hint::Optional => FieldPlan::Optional,
            Hint::Sequence => FieldPlan::Refuse("FieldDeserializer::deserialize_seq()"),
            Hint::Dictionary => FieldPlan::Refuse("FieldDeserializer::deserialize_map()"),
            Hint::UnitStruct => FieldPlan::Refuse("FieldDeserializer::deserialize_unit_struct()"),
            Hint::NewtypeStruct => FieldPlan::Newtype,
            Hint::TupleStruct => FieldPlan::Refuse("FieldDeserializer::deserialize_tuple_struct()"),
            Hint::Struct => FieldPlan::Refuse("FieldDeserializer::deserialize_struct()"),
            Hint::Bytes => FieldPlan::Convert(Leaf::Bytes),
            Hint::ByteBuf => FieldPlan::Convert(Leaf::Bytes),
            Hint::Tuple => FieldPlan::Refuse("FieldDeserializer::deserialize_tuple()"),
            Hint::Enum => FieldPlan::Refuse("FieldDeserializer::deserialize_enum()"),
            Hint::Identifier => FieldPlan::Refuse("FieldDeserializer::deserialize_identifier()"),
            Hint::IgnoredAny => FieldPlan::Refuse("FieldDeserializer::deserialize_ignored_any()"),
        }
    }

    /// Converts the value into the type `T`, and wraps the error if the
    /// conversion fails.
    pub fn convert<T>(self) -> (outcome: Result<T, DeserializationError>) where DBV: DbValueInto<T>
        ensures
            outcome_agrees(outcome, lifted(DbValueInto::<T>::converted(self.value()))),
    {
        match DbValueInto::<T>::try_into(self.0) {
            Ok(value) => Ok(value),
            Err(error) => Err(DeserializationError::ConversionError(error)),
        }
    }

    /// Tells a null value from a present one: `None` for null, else the
    /// reader itself, to take the content from.
    pub fn deserialize_option(self) -> (present: Option<FieldDeserializer<DBV>>)
        ensures
            present == (if self.value().null() {
                None
            } else {
                Some(self)
            }),
    {
        if self.0.is_null() {
            None
        } else {
            Some(self)
        }
    }

    /// Converts the value into the primitive type.
    fn convert_leaf(self, leaf: Leaf) -> (outcome: Result<FieldStep<DBV>, DeserializationError>)
        ensures
            outcome_agrees(outcome, converted_step(self.value(), leaf)),
    {
        match leaf {
            Leaf::Bool => match self.convert::<bool>() {
                Ok(v) => Ok(FieldStep::Bool(v)),
                Err(e) => Err(e),
            },
            Leaf::U8 => match self.convert::<u8>() {
                Ok(v) => Ok(FieldStep::U8(v)),
                Err(e) => Err(e),
            },
            Leaf::U16 => match self.convert::<u16>() {
                Ok(v) => Ok(FieldStep::U16(v)),
                Err(e) => Err(e),
            },
            Leaf::U32 => match self.convert::<u32>() {
                Ok(v) => Ok(FieldStep::U32(v)),
                Err(e) => Err(e),
            },
            Leaf::U64 => match self.convert::<u64>() {
                Ok(v) => Ok(FieldStep::U64(v)),
                Err(e) => Err(e),
            },
            Leaf::I8 => match self.convert::<i8>() {
                Ok(v) => Ok(FieldStep::I8(v)),
                Err(e) => Err(e),
            },
            Leaf::I16 => match self.convert::<i16>() {
                Ok(v) => Ok(FieldStep::I16(v)),
                Err(e) => Err(e),
            },
            Leaf::I32 => match self.convert::<i32>() {
                Ok(v) => Ok(FieldStep::I32(v)),
                Err(e) => Err(e),
            },
            Leaf::I64 => match self.convert::<i64>() {
                Ok(v) => Ok(FieldStep::I64(v)),
                Err(e) => Err(e),
            },
            Leaf::Single => Ok(FieldStep::Float(self.0, Leaf::Single)),
            Leaf::Double => Ok(FieldStep::Float(self.0, Leaf::Double)),
            Leaf::Text => match self.convert::<String>() {
                Ok(v) => Ok(FieldStep::Text(v)),
                Err(e) => Err(e),
            },
            Leaf::Bytes => match self.convert::<Vec<u8>>() {
                Ok(v) => Ok(FieldStep::Bytes(v)),
                Err(e) => Err(e),
            },
        }
    }

    /// Answers a hint: converts the value where a primitive type is asked
    /// for, tells null from present where an optional value is asked for,
    /// hands itself on for a wrapper, and refuses every other shape with
    /// [`DeserializationError::NotImplemented`].
    pub fn deserialize(self, hint: Hint) -> (outcome: Result<
        FieldStep<DBV>,
        DeserializationError,
    >)
        ensures
            outcome_agrees(outcome, field_outcome(self.value(), hint)),
    {
        match Self::plan(hint) {
            FieldPlan::Convert(leaf) => self.convert_leaf(leaf),
            FieldPlan::Optional => match self.deserialize_option() {
                None => Ok(FieldStep::Absent),
                Some(reader) => Ok(FieldStep::Present(reader)),
            },
            FieldPlan::Newtype => Ok(FieldStep::Newtype(self)),
            FieldPlan::Refuse(request) => Err(DeserializationError::NotImplemented(request)),
        }
    }
}

} // verus!
